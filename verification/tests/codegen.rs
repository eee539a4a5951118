use plonk_gates::constant::ConstantGate;
use plonk_gates::decimal::to_decimal;
use plonk_gates::gate::Gate;
use plonk_gates::template::{substitute, Binding, TemplateError};

#[test]
fn id_names_the_number_of_constants() {
    assert_eq!(ConstantGate { num_consts: 2 }.id(), "ConstantGate { num_consts: 2 }");
    assert_eq!(ConstantGate { num_consts: 0 }.id(), "ConstantGate { num_consts: 0 }");
    assert_eq!(ConstantGate { num_consts: 1234 }.id(), format!("{:?}", ConstantGate { num_consts: 1234 }));
}

#[test]
fn circom_code_of_three_constants() {
    let expected = "template Constant3() {
  signal input constants[NUM_OPENINGS_CONSTANTS()][2];
  signal input wires[NUM_OPENINGS_WIRES()][2];
  signal input public_input_hash[4];
  signal input constraints[NUM_GATE_CONSTRAINTS()][2];
  signal output out[NUM_GATE_CONSTRAINTS()][2];

  signal filter[2];
  filter[0] <== 1; filter[1] <== 0;

  for (var i = 0; i < 3; i++) {
    out[i] <== ConstraintPush()(constraints[i], filter, GlExtSub()(constants[0 + i], wires[i]));
  }
  for (var i = 3; i < NUM_GATE_CONSTRAINTS(); i++) {
    out[i] <== constraints[i];
  }
}";
    assert_eq!(ConstantGate { num_consts: 3 }.export_circom_verification_code(), expected);
}

#[test]
fn solidity_code_of_twelve_constants() {
    let expected = "library Constant12Lib {
    function set_filter(GatesUtilsLib.EvaluationVars memory ev) internal pure {
        ev.filter[0] = 1; ev.filter[1] = 0;
    }
    using GoldilocksExtLib for uint64[2];
    function eval(GatesUtilsLib.EvaluationVars memory ev, uint64[2][12] memory constraints) internal pure {
        for (uint32 i = 0; i < 12; i++) {
            GatesUtilsLib.push(constraints, ev.filter, i, ev.constants[0 + i].sub(ev.wires[i]));
        }
    }
}";
    assert_eq!(ConstantGate { num_consts: 12 }.export_solidity_verification_code(), expected);
}

#[test]
fn code_is_the_same_on_every_call_and_holds_no_placeholder() {
    for n in [0, 1, 2, 9, 10, 255, 100_000] {
        let gate = ConstantGate { num_consts: n };
        let circom = gate.export_circom_verification_code();
        assert_eq!(circom, gate.export_circom_verification_code());
        assert_eq!(circom, ConstantGate { num_consts: n }.export_circom_verification_code());
        assert!(!circom.contains('$'));
        assert!(circom.contains(&format!("template Constant{}() {{", n)));
        let solidity = gate.export_solidity_verification_code();
        assert_eq!(solidity, gate.export_solidity_verification_code());
        assert!(!solidity.contains('$'));
        assert!(solidity.contains(&format!("library Constant{}Lib {{", n)));
    }
}

#[test]
fn decimal_notation() {
    assert_eq!(to_decimal(0), "0");
    assert_eq!(to_decimal(7), "7");
    assert_eq!(to_decimal(10), "10");
    assert_eq!(to_decimal(1090), "1090");
    assert_eq!(to_decimal(usize::MAX), usize::MAX.to_string());
}

fn bind<'a>(name: &'a str, value: &'a str) -> Binding<'a> {
    Binding { name, value }
}

#[test]
fn substitute_replaces_each_placeholder() {
    let bindings = [bind("A", "1"), bind("BB", "22")];
    assert_eq!(substitute("x$Ay$BBz$A", &bindings), Ok("x1y22z1".to_string()));
    assert_eq!(substitute("", &bindings), Ok(String::new()));
    assert_eq!(substitute("no placeholder", &[]), Ok("no placeholder".to_string()));
    assert_eq!(substitute("$A$A$BB", &bindings), Ok("1122".to_string()));
}

#[test]
fn substitute_reads_a_name_as_far_as_it_goes() {
    // The name ends where it ends, whatever follows it.
    let bindings = [bind("NUM", "3")];
    assert_eq!(substitute("Constant$NUMLib", &bindings), Ok("Constant3Lib".to_string()));
    assert_eq!(substitute("$NUM_X", &bindings), Ok("3_X".to_string()));
}

#[test]
fn substitute_does_not_read_a_value_again() {
    let bindings = [bind("A", "$B"), bind("B", "$A")];
    assert_eq!(substitute("$A-$B", &bindings), Ok("$B-$A".to_string()));
}

#[test]
fn substitute_counts_positions_in_characters() {
    let bindings = [bind("é", "e")];
    assert_eq!(substitute("ü$é", &bindings), Ok("üe".to_string()));
    assert_eq!(
        substitute("üü$x", &bindings),
        Err(TemplateError::UnboundPlaceholder { position: 2 })
    );
}

#[test]
fn substitute_refuses_a_placeholder_without_value() {
    let bindings = [bind("A", "1")];
    assert_eq!(
        substitute("ab$C", &bindings),
        Err(TemplateError::UnboundPlaceholder { position: 2 })
    );
    assert_eq!(substitute("$", &bindings), Err(TemplateError::UnboundPlaceholder { position: 0 }));
    assert_eq!(substitute("$A$", &bindings), Err(TemplateError::UnboundPlaceholder { position: 2 }));
    assert_eq!(substitute("$a", &bindings), Err(TemplateError::UnboundPlaceholder { position: 0 }));
    assert_eq!(substitute("$A", &[]), Err(TemplateError::UnboundPlaceholder { position: 0 }));
}

#[test]
fn substitute_refuses_an_ambiguous_placeholder() {
    // `$NUM_C` could be `$NUM` followed by `_C`.
    let bindings = [bind("NUM", "1"), bind("NUM_C", "2")];
    assert_eq!(
        substitute("x = $NUM_C;", &bindings),
        Err(TemplateError::AmbiguousPlaceholder { position: 4 })
    );
    // Where only one of the two names stands, there is no doubt.
    assert_eq!(substitute("x = $NUM;", &bindings), Ok("x = 1;".to_string()));
    // A name that is bound twice is ambiguous as well.
    let twice = [bind("A", "1"), bind("A", "1")];
    assert_eq!(substitute("$A", &twice), Err(TemplateError::AmbiguousPlaceholder { position: 0 }));
}

#[test]
fn substitute_reports_the_first_error() {
    let bindings = [bind("A", "1"), bind("AB", "2")];
    assert_eq!(
        substitute("$A $AB $C", &bindings),
        Err(TemplateError::AmbiguousPlaceholder { position: 3 })
    );
    assert_eq!(
        substitute("$C $AB", &bindings),
        Err(TemplateError::UnboundPlaceholder { position: 0 })
    );
}

#[test]
fn substitute_takes_an_empty_name_for_the_bare_sign() {
    let bare = [bind("", "X")];
    assert_eq!(substitute("a$b$", &bare), Ok("aXbX".to_string()));
    let both = [bind("", "X"), bind("b", "Y")];
    assert_eq!(substitute("a$b", &both), Err(TemplateError::AmbiguousPlaceholder { position: 1 }));
    assert_eq!(substitute("a$c", &both), Ok("aXc".to_string()));
}
