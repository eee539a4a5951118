//! The verification code of a constant gate, in Circom and in Solidity.
//!
//! Each of the two is a template in which the number of constants, the
//! number of selectors, the number of constraints and the statement that
//! sets the selector filter are placeholders. The code of a gate is its
//! template with every placeholder replaced: the numbers are those of the
//! gate by itself, and the filter is one.

use crate::decimal::{decimal, lemma_decimal_digits, to_decimal};
use crate::template::{
    agrees, has_single_name, is_bound, is_plain, is_single_name, lemma_agrees,
    lemma_bound_renders, lemma_differs, lemma_plain, lemma_rendered_has_no_placeholder, names_of,
    rendered, substitute, values_of, Binding, TemplateError,
};
use vstd::prelude::*;
use vstd::string::*;

verus! {

/// The template of the Circom code of a constant gate.
pub const CIRCOM_TEMPLATE: &'static str = "template Constant$NUM_CONSTANTS() {
  signal input constants[NUM_OPENINGS_CONSTANTS()][2];
  signal input wires[NUM_OPENINGS_WIRES()][2];
  signal input public_input_hash[4];
  signal input constraints[NUM_GATE_CONSTRAINTS()][2];
  signal output out[NUM_GATE_CONSTRAINTS()][2];

  signal filter[2];
  $SET_FILTER;

  for (var i = 0; i < $NUM_CONSTANTS; i++) {
    out[i] <== ConstraintPush()(constraints[i], filter, GlExtSub()(constants[$NUM_SELECTORS + i], wires[i]));
  }
  for (var i = $NUM_CONSTANTS; i < NUM_GATE_CONSTRAINTS(); i++) {
    out[i] <== constraints[i];
  }
}";

/// The template of the Solidity code of a constant gate.
pub const SOLIDITY_TEMPLATE: &'static str = "library Constant$NUM_CONSTANTSLib {
    function set_filter(GatesUtilsLib.EvaluationVars memory ev) internal pure {
        $SET_FILTER;
    }
    using GoldilocksExtLib for uint64[2];
    function eval(GatesUtilsLib.EvaluationVars memory ev, uint64[2][$NUM_GATE_CONSTRAINTS] memory constraints) internal pure {
        for (uint32 i = 0; i < $NUM_CONSTANTS; i++) {
            GatesUtilsLib.push(constraints, ev.filter, i, ev.constants[$NUM_SELECTORS + i].sub(ev.wires[i]));
        }
    }
}";

/// The Circom statement that sets the selector filter: the filter is one.
pub const CIRCOM_FILTER: &'static str = "filter[0] <== 1; filter[1] <== 0";

/// The Solidity statement that sets the selector filter: the filter is one.
pub const SOLIDITY_FILTER: &'static str = "ev.filter[0] = 1; ev.filter[1] = 0";

/// The number of selectors that stand before the constants of a gate: the
/// constants that a gate reads are counted from zero.
pub const NUM_SELECTORS: &'static str = "0";

/// The names of the placeholders of the two templates, in the order of their
/// bindings.
pub open spec fn placeholder_names() -> Seq<Seq<char>> {
    seq!["NUM_CONSTANTS"@, "NUM_SELECTORS"@, "NUM_GATE_CONSTRAINTS"@, "SET_FILTER"@]
}

/// The values of the placeholders for a gate of `n` constants, where
/// `filter` is the statement that sets the selector filter.
pub open spec fn placeholder_values(n: nat, filter: Seq<char>) -> Seq<Seq<char>> {
    seq![decimal(n), NUM_SELECTORS@, decimal(n), filter]
}

/// `template` with the placeholders replaced by their values for a gate of
/// `n` constants.
pub open spec fn verification_code(template: Seq<char>, n: nat, filter: Seq<char>) -> Seq<char> {
    match rendered(template, placeholder_names(), placeholder_values(n, filter), 0) {
        Ok(text) => text,
        Err(_) => Seq::empty(),
    }
}

/// Every `$` of the Circom template has exactly one placeholder behind it.
proof fn lemma_circom_template_bound()
    ensures
        is_bound(CIRCOM_TEMPLATE@, placeholder_names()),
{
    let t = CIRCOM_TEMPLATE@;
    let names = placeholder_names();
    reveal_strlit("template Constant$NUM_CONSTANTS() {
  signal input constants[NUM_OPENINGS_CONSTANTS()][2];
  signal input wires[NUM_OPENINGS_WIRES()][2];
  signal input public_input_hash[4];
  signal input constraints[NUM_GATE_CONSTRAINTS()][2];
  signal output out[NUM_GATE_CONSTRAINTS()][2];

  signal filter[2];
  $SET_FILTER;

  for (var i = 0; i < $NUM_CONSTANTS; i++) {
    out[i] <== ConstraintPush()(constraints[i], filter, GlExtSub()(constants[$NUM_SELECTORS + i], wires[i]));
  }
  for (var i = $NUM_CONSTANTS; i < NUM_GATE_CONSTRAINTS(); i++) {
    out[i] <== constraints[i];
  }
}");
    reveal_strlit("NUM_CONSTANTS");
    reveal_strlit("NUM_SELECTORS");
    reveal_strlit("NUM_GATE_CONSTRAINTS");
    reveal_strlit("SET_FILTER");
    assert(t.len() == 576);
    // The text between two placeholders holds no `$`. It is read in stretches
    // that are short enough for `is_plain` to be unfolded over each of them.
    assert(is_plain(t, 0, 17)) by {
        reveal_with_fuel(is_plain, 18);
    }
    assert(is_plain(t, 18, 78)) by {
        reveal_with_fuel(is_plain, 61);
    }
    assert(is_plain(t, 78, 138)) by {
        reveal_with_fuel(is_plain, 61);
    }
    assert(is_plain(t, 138, 198)) by {
        reveal_with_fuel(is_plain, 61);
    }
    assert(is_plain(t, 198, 258)) by {
        reveal_with_fuel(is_plain, 61);
    }
    assert(is_plain(t, 258, 301)) by {
        reveal_with_fuel(is_plain, 44);
    }
    assert(is_plain(t, 302, 337)) by {
        reveal_with_fuel(is_plain, 36);
    }
    assert(is_plain(t, 338, 398)) by {
        reveal_with_fuel(is_plain, 61);
    }
    assert(is_plain(t, 398, 437)) by {
        reveal_with_fuel(is_plain, 40);
    }
    assert(is_plain(t, 438, 489)) by {
        reveal_with_fuel(is_plain, 52);
    }
    assert(is_plain(t, 490, 550)) by {
        reveal_with_fuel(is_plain, 61);
    }
    assert(is_plain(t, 550, 576)) by {
        reveal_with_fuel(is_plain, 27);
    }
    // Behind each `$` stands one placeholder's name, and there every other
    // name differs from the text in some character.
    assert(is_single_name(t, 18, names, 0)) by {
        assert(agrees(t, 18, names[0], 13)) by {
            reveal_with_fuel(agrees, 14);
        }
        lemma_agrees(t, 18, names[0], 13);
        lemma_differs(t, 18, names[1], 4);
        lemma_differs(t, 18, names[2], 4);
        lemma_differs(t, 18, names[3], 0);
    }
    assert(is_single_name(t, 302, names, 3)) by {
        assert(agrees(t, 302, names[3], 10)) by {
            reveal_with_fuel(agrees, 11);
        }
        lemma_agrees(t, 302, names[3], 10);
        lemma_differs(t, 302, names[0], 0);
        lemma_differs(t, 302, names[1], 0);
        lemma_differs(t, 302, names[2], 0);
    }
    assert(is_single_name(t, 338, names, 0)) by {
        assert(agrees(t, 338, names[0], 13)) by {
            reveal_with_fuel(agrees, 14);
        }
        lemma_agrees(t, 338, names[0], 13);
        lemma_differs(t, 338, names[1], 4);
        lemma_differs(t, 338, names[2], 4);
        lemma_differs(t, 338, names[3], 0);
    }
    assert(is_single_name(t, 438, names, 1)) by {
        assert(agrees(t, 438, names[1], 13)) by {
            reveal_with_fuel(agrees, 14);
        }
        lemma_agrees(t, 438, names[1], 13);
        lemma_differs(t, 438, names[0], 4);
        lemma_differs(t, 438, names[2], 4);
        lemma_differs(t, 438, names[3], 0);
    }
    assert(is_single_name(t, 490, names, 0)) by {
        assert(agrees(t, 490, names[0], 13)) by {
            reveal_with_fuel(agrees, 14);
        }
        lemma_agrees(t, 490, names[0], 13);
        lemma_differs(t, 490, names[1], 4);
        lemma_differs(t, 490, names[2], 4);
        lemma_differs(t, 490, names[3], 0);
    }
    // So a `$` is at one of the places just seen.
    assert forall|i: int| 0 <= i < t.len() && #[trigger] t[i] == '$' implies has_single_name(
        t,
        i + 1,
        names,
    ) by {
        if i < 17 {
            lemma_plain(t, 0, 17, i);
        } else if i == 17 {
            assert(is_single_name(t, 18, names, 0));
        } else if i < 78 {
            lemma_plain(t, 18, 78, i);
        } else if i < 138 {
            lemma_plain(t, 78, 138, i);
        } else if i < 198 {
            lemma_plain(t, 138, 198, i);
        } else if i < 258 {
            lemma_plain(t, 198, 258, i);
        } else if i < 301 {
            lemma_plain(t, 258, 301, i);
        } else if i == 301 {
            assert(is_single_name(t, 302, names, 3));
        } else if i < 337 {
            lemma_plain(t, 302, 337, i);
        } else if i == 337 {
            assert(is_single_name(t, 338, names, 0));
        } else if i < 398 {
            lemma_plain(t, 338, 398, i);
        } else if i < 437 {
            lemma_plain(t, 398, 437, i);
        } else if i == 437 {
            assert(is_single_name(t, 438, names, 1));
        } else if i < 489 {
            lemma_plain(t, 438, 489, i);
        } else if i == 489 {
            assert(is_single_name(t, 490, names, 0));
        } else if i < 550 {
            lemma_plain(t, 490, 550, i);
        } else if i < 576 {
            lemma_plain(t, 550, 576, i);
        }
    }
}

/// Every `$` of the Solidity template has exactly one placeholder behind it.
proof fn lemma_solidity_template_bound()
    ensures
        is_bound(SOLIDITY_TEMPLATE@, placeholder_names()),
{
    let t = SOLIDITY_TEMPLATE@;
    let names = placeholder_names();
    reveal_strlit("library Constant$NUM_CONSTANTSLib {
    function set_filter(GatesUtilsLib.EvaluationVars memory ev) internal pure {
        $SET_FILTER;
    }
    using GoldilocksExtLib for uint64[2];
    function eval(GatesUtilsLib.EvaluationVars memory ev, uint64[2][$NUM_GATE_CONSTRAINTS] memory constraints) internal pure {
        for (uint32 i = 0; i < $NUM_CONSTANTS; i++) {
            GatesUtilsLib.push(constraints, ev.filter, i, ev.constants[$NUM_SELECTORS + i].sub(ev.wires[i]));
        }
    }
}");
    reveal_strlit("NUM_CONSTANTS");
    reveal_strlit("NUM_SELECTORS");
    reveal_strlit("NUM_GATE_CONSTRAINTS");
    reveal_strlit("SET_FILTER");
    assert(t.len() == 493);
    // The text between two placeholders holds no `$`. It is read in stretches
    // that are short enough for `is_plain` to be unfolded over each of them.
    assert(is_plain(t, 0, 16)) by {
        reveal_with_fuel(is_plain, 17);
    }
    assert(is_plain(t, 17, 77)) by {
        reveal_with_fuel(is_plain, 61);
    }
    assert(is_plain(t, 77, 124)) by {
        reveal_with_fuel(is_plain, 48);
    }
    assert(is_plain(t, 125, 185)) by {
        reveal_with_fuel(is_plain, 61);
    }
    assert(is_plain(t, 185, 245)) by {
        reveal_with_fuel(is_plain, 61);
    }
    assert(is_plain(t, 245, 253)) by {
        reveal_with_fuel(is_plain, 9);
    }
    assert(is_plain(t, 254, 314)) by {
        reveal_with_fuel(is_plain, 61);
    }
    assert(is_plain(t, 314, 343)) by {
        reveal_with_fuel(is_plain, 30);
    }
    assert(is_plain(t, 344, 404)) by {
        reveal_with_fuel(is_plain, 61);
    }
    assert(is_plain(t, 404, 437)) by {
        reveal_with_fuel(is_plain, 34);
    }
    assert(is_plain(t, 438, 493)) by {
        reveal_with_fuel(is_plain, 56);
    }
    // Behind each `$` stands one placeholder's name, and there every other
    // name differs from the text in some character.
    assert(is_single_name(t, 17, names, 0)) by {
        assert(agrees(t, 17, names[0], 13)) by {
            reveal_with_fuel(agrees, 14);
        }
        lemma_agrees(t, 17, names[0], 13);
        lemma_differs(t, 17, names[1], 4);
        lemma_differs(t, 17, names[2], 4);
        lemma_differs(t, 17, names[3], 0);
    }
    assert(is_single_name(t, 125, names, 3)) by {
        assert(agrees(t, 125, names[3], 10)) by {
            reveal_with_fuel(agrees, 11);
        }
        lemma_agrees(t, 125, names[3], 10);
        lemma_differs(t, 125, names[0], 0);
        lemma_differs(t, 125, names[1], 0);
        lemma_differs(t, 125, names[2], 0);
    }
    assert(is_single_name(t, 254, names, 2)) by {
        assert(agrees(t, 254, names[2], 20)) by {
            reveal_with_fuel(agrees, 21);
        }
        lemma_agrees(t, 254, names[2], 20);
        lemma_differs(t, 254, names[0], 4);
        lemma_differs(t, 254, names[1], 4);
        lemma_differs(t, 254, names[3], 0);
    }
    assert(is_single_name(t, 344, names, 0)) by {
        assert(agrees(t, 344, names[0], 13)) by {
            reveal_with_fuel(agrees, 14);
        }
        lemma_agrees(t, 344, names[0], 13);
        lemma_differs(t, 344, names[1], 4);
        lemma_differs(t, 344, names[2], 4);
        lemma_differs(t, 344, names[3], 0);
    }
    assert(is_single_name(t, 438, names, 1)) by {
        assert(agrees(t, 438, names[1], 13)) by {
            reveal_with_fuel(agrees, 14);
        }
        lemma_agrees(t, 438, names[1], 13);
        lemma_differs(t, 438, names[0], 4);
        lemma_differs(t, 438, names[2], 4);
        lemma_differs(t, 438, names[3], 0);
    }
    // So a `$` is at one of the places just seen.
    assert forall|i: int| 0 <= i < t.len() && #[trigger] t[i] == '$' implies has_single_name(
        t,
        i + 1,
        names,
    ) by {
        if i < 16 {
            lemma_plain(t, 0, 16, i);
        } else if i == 16 {
            assert(is_single_name(t, 17, names, 0));
        } else if i < 77 {
            lemma_plain(t, 17, 77, i);
        } else if i < 124 {
            lemma_plain(t, 77, 124, i);
        } else if i == 124 {
            assert(is_single_name(t, 125, names, 3));
        } else if i < 185 {
            lemma_plain(t, 125, 185, i);
        } else if i < 245 {
            lemma_plain(t, 185, 245, i);
        } else if i < 253 {
            lemma_plain(t, 245, 253, i);
        } else if i == 253 {
            assert(is_single_name(t, 254, names, 2));
        } else if i < 314 {
            lemma_plain(t, 254, 314, i);
        } else if i < 343 {
            lemma_plain(t, 314, 343, i);
        } else if i == 343 {
            assert(is_single_name(t, 344, names, 0));
        } else if i < 404 {
            lemma_plain(t, 344, 404, i);
        } else if i < 437 {
            lemma_plain(t, 404, 437, i);
        } else if i == 437 {
            assert(is_single_name(t, 438, names, 1));
        } else if i < 493 {
            lemma_plain(t, 438, 493, i);
        }
    }
}

/// No value of a placeholder holds a `$`.
proof fn lemma_values_plain(n: nat)
    ensures
        forall|k: int|
            0 <= k < 4 ==> !(#[trigger] placeholder_values(n, CIRCOM_FILTER@)[k]).contains('$'),
        forall|k: int|
            0 <= k < 4 ==> !(#[trigger] placeholder_values(n, SOLIDITY_FILTER@)[k]).contains('$'),
{
    reveal_strlit("filter[0] <== 1; filter[1] <== 0");
    reveal_strlit("ev.filter[0] = 1; ev.filter[1] = 0");
    reveal_strlit("0");
    lemma_decimal_digits(n);
    let circom = CIRCOM_FILTER@;
    let solidity = SOLIDITY_FILTER@;
    assert(is_plain(circom, 0, 32)) by {
        reveal_with_fuel(is_plain, 33);
    }
    assert(is_plain(solidity, 0, 34)) by {
        reveal_with_fuel(is_plain, 35);
    }
    assert forall|i: int| 0 <= i < circom.len() implies circom[i] != '$' by {
        lemma_plain(circom, 0, 32, i);
    }
    assert forall|i: int| 0 <= i < solidity.len() implies solidity[i] != '$' by {
        lemma_plain(solidity, 0, 34, i);
    }
}

/// The verification code of a gate of `n` constants from `template`, one of
/// the two templates of this gate.
fn export_verification_code(template: &'static str, filter: &'static str, n: usize) -> (r: String)
    requires
        rendered(template@, placeholder_names(), placeholder_values(n as nat, filter@), 0) is Ok,
    ensures
        r@ == verification_code(template@, n as nat, filter@),
{
    let count = to_decimal(n);
    let bindings = [
        Binding { name: "NUM_CONSTANTS", value: count.as_str() },
        Binding { name: "NUM_SELECTORS", value: NUM_SELECTORS },
        Binding { name: "NUM_GATE_CONSTRAINTS", value: count.as_str() },
        Binding { name: "SET_FILTER", value: filter },
    ];
    proof {
        let names = placeholder_names();
        let values = placeholder_values(n as nat, filter@);
        assert(names_of(bindings@) =~= names);
        assert(values_of(bindings@) =~= values);
    }
    let r = substitute(template, bindings.as_slice());
    r.unwrap()
}

/// Substitution succeeds on both templates, whatever the number of
/// constants: every placeholder of a template has a value, and no `$` is
/// left in the code.
pub proof fn lemma_templates_render(n: nat)
    ensures
        rendered(CIRCOM_TEMPLATE@, placeholder_names(), placeholder_values(n, CIRCOM_FILTER@), 0)
            == Ok::<Seq<char>, TemplateError>(
            verification_code(CIRCOM_TEMPLATE@, n, CIRCOM_FILTER@),
        ),
        rendered(
            SOLIDITY_TEMPLATE@,
            placeholder_names(),
            placeholder_values(n, SOLIDITY_FILTER@),
            0,
        ) == Ok::<Seq<char>, TemplateError>(
            verification_code(SOLIDITY_TEMPLATE@, n, SOLIDITY_FILTER@),
        ),
        !verification_code(CIRCOM_TEMPLATE@, n, CIRCOM_FILTER@).contains('$'),
        !verification_code(SOLIDITY_TEMPLATE@, n, SOLIDITY_FILTER@).contains('$'),
{
    lemma_circom_template_bound();
    lemma_solidity_template_bound();
    lemma_values_plain(n);
    let names = placeholder_names();
    let circom = placeholder_values(n, CIRCOM_FILTER@);
    let solidity = placeholder_values(n, SOLIDITY_FILTER@);
    lemma_bound_renders(CIRCOM_TEMPLATE@, names, circom, 0);
    lemma_bound_renders(SOLIDITY_TEMPLATE@, names, solidity, 0);
    lemma_rendered_has_no_placeholder(CIRCOM_TEMPLATE@, names, circom, 0);
    lemma_rendered_has_no_placeholder(SOLIDITY_TEMPLATE@, names, solidity, 0);
}

/// The Circom code of a gate of `n` constants.
pub(crate) fn circom_verification_code(n: usize) -> (r: String)
    ensures
        r@ == verification_code(CIRCOM_TEMPLATE@, n as nat, CIRCOM_FILTER@),
        !r@.contains('$'),
{
    proof {
        lemma_templates_render(n as nat);
    }
    export_verification_code(CIRCOM_TEMPLATE, CIRCOM_FILTER, n)
}

/// The Solidity code of a gate of `n` constants.
pub(crate) fn solidity_verification_code(n: usize) -> (r: String)
    ensures
        r@ == verification_code(SOLIDITY_TEMPLATE@, n as nat, SOLIDITY_FILTER@),
        !r@.contains('$'),
{
    proof {
        lemma_templates_render(n as nat);
    }
    export_verification_code(SOLIDITY_TEMPLATE, SOLIDITY_FILTER, n)
}

} // verus!
