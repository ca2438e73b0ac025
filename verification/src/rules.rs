//! The platform rule evaluator: decides, for one library entry, whether it
//! applies to the target platform.
//!
//! Rules are applied strictly in order as a left-to-right fold that
//! overwrites one running `included` decision; no rule halts the iteration
//! early, and the value after the last rule is the result.

use vstd::prelude::*;
use crate::model::{Library, Platform, Rule};
use crate::text::str_eq;

verus! {

/// The running included decision after applying one rule to the decision
/// `included` reached so far.
///
/// An `allow` rule without OS constraint sets the decision to true; with a
/// constraint it sets it to whether the constraint matches the target (name
/// must match; an architecture, when given, must match too). A `disallow`
/// rule without OS constraint, or whose constraint names the target
/// platform, sets the decision to false, and otherwise leaves it unchanged;
/// so does any unknown action.
pub open spec fn apply_rule(included: bool, r: Rule, os_name: Seq<char>, os_arch: Seq<char>) -> bool {
    if r.action@ == "allow"@ {
        match r.os {
            Option::None => true,
            Option::Some(os) => match os.name {
                Option::Some(n) => if n@ == os_name {
                    match os.arch {
                        Option::Some(a) => a@ == os_arch,
                        Option::None => true,
                    }
                } else {
                    false
                },
                Option::None => false,
            },
        }
    } else if r.action@ == "disallow"@ {
        match r.os {
            Option::None => false,
            Option::Some(os) => match os.name {
                Option::Some(n) => if n@ == os_name {
                    false
                } else {
                    included
                },
                Option::None => included,
            },
        }
    } else {
        included
    }
}

/// The included decision after the first `i` rules, starting from true.
pub open spec fn eval_upto(rules: Seq<Rule>, os_name: Seq<char>, os_arch: Seq<char>, i: int) -> bool
    decreases i,
{
    if i <= 0 {
        true
    } else {
        apply_rule(eval_upto(rules, os_name, os_arch, i - 1), rules[i - 1], os_name, os_arch)
    }
}

/// The included decision after all rules.
pub open spec fn evaluate_spec(rules: Seq<Rule>, os_name: Seq<char>, os_arch: Seq<char>) -> bool {
    eval_upto(rules, os_name, os_arch, rules.len() as int)
}

/// Whether a library applies to the platform: true when it carries no rule
/// list, and otherwise the fold over its rules.
pub open spec fn library_included(lib: Library, platform: Platform) -> bool {
    match lib.rules {
        Option::None => true,
        Option::Some(rs) => evaluate_spec(rs@, platform.os_name@, platform.os_arch@),
    }
}

/// Folds the rules in order, overwriting the running decision.
pub fn evaluate(rules: &Vec<Rule>, platform: &Platform) -> (r: bool)
    ensures
        r == evaluate_spec(rules@, platform.os_name@, platform.os_arch@),
{
    let mut included = true;
    let mut i: usize = 0;
    while i < rules.len()
        invariant
            i <= rules@.len(),
            included == eval_upto(rules@, platform.os_name@, platform.os_arch@, i as int),
        decreases rules@.len() - i,
    {
        let rule = &rules[i];
        if str_eq(rule.action.as_str(), "allow") {
            included = match &rule.os {
                Option::None => true,
                Option::Some(os) => match &os.name {
                    Option::Some(n) => if str_eq(n.as_str(), platform.os_name.as_str()) {
                        match &os.arch {
                            Option::Some(a) => str_eq(a.as_str(), platform.os_arch.as_str()),
                            Option::None => true,
                        }
                    } else {
                        false
                    },
                    Option::None => false,
                },
            };
        } else if str_eq(rule.action.as_str(), "disallow") {
            included = match &rule.os {
                Option::None => false,
                Option::Some(os) => match &os.name {
                    Option::Some(n) => if str_eq(n.as_str(), platform.os_name.as_str()) {
                        false
                    } else {
                        included
                    },
                    Option::None => included,
                },
            };
        }
        i += 1;
    }
    included
}

/// Whether one library applies to the platform: true for an absent rule
/// list, and otherwise the ordered fold over the rules.
pub fn check_library_rules(lib: &Library, platform: &Platform) -> (r: bool)
    ensures
        r == library_included(*lib, *platform),
{
    match &lib.rules {
        Option::None => true,
        Option::Some(rs) => evaluate(rs, platform),
    }
}

/// A library whose rule list is absent or empty is always included,
/// whatever the platform.
pub proof fn lemma_no_rules_always_included(lib: Library, platform: Platform)
    requires
        lib.rules matches Option::Some(rs) ==> rs@.len() == 0,
    ensures
        library_included(lib, platform),
{
}

/// A single `disallow` rule without OS constraint excludes the library on
/// every platform.
pub proof fn lemma_single_disallow_excludes(rules: Seq<Rule>, os_name: Seq<char>, os_arch: Seq<char>)
    requires
        rules.len() == 1,
        rules[0].action@ == "disallow"@,
        rules[0].os is None,
    ensures
        !evaluate_spec(rules, os_name, os_arch),
{
    reveal_strlit("allow");
    reveal_strlit("disallow");
    assert("allow"@.len() == 5);
    assert("disallow"@.len() == 8);
    assert(eval_upto(rules, os_name, os_arch, 0));
    assert(evaluate_spec(rules, os_name, os_arch) == apply_rule(true, rules[0], os_name,
        os_arch));
}

/// Rule evaluation is order-sensitive: an unconstrained `allow` followed by
/// a `disallow` that names the target platform yields exclusion — the last
/// rule wins, although the first alone would keep the library.
pub proof fn lemma_last_rule_wins(rules: Seq<Rule>, os_name: Seq<char>, os_arch: Seq<char>)
    requires
        rules.len() == 2,
        rules[0].action@ == "allow"@,
        rules[0].os is None,
        rules[1].action@ == "disallow"@,
        rules[1].os matches Option::Some(os) && os.name matches Option::Some(n) && n@ == os_name
            && os.arch is None,
    ensures
        !evaluate_spec(rules, os_name, os_arch),
        evaluate_spec(rules.take(1), os_name, os_arch),
{
    reveal_strlit("allow");
    reveal_strlit("disallow");
    assert("allow"@.len() == 5);
    assert("disallow"@.len() == 8);
    assert(eval_upto(rules, os_name, os_arch, 0));
    assert(eval_upto(rules, os_name, os_arch, 1) == apply_rule(true, rules[0], os_name, os_arch));
    assert(evaluate_spec(rules, os_name, os_arch) == apply_rule(
        eval_upto(rules, os_name, os_arch, 1),
        rules[1],
        os_name,
        os_arch,
    ));
    assert(rules.take(1)[0] == rules[0]);
    assert(eval_upto(rules.take(1), os_name, os_arch, 0));
    assert(evaluate_spec(rules.take(1), os_name, os_arch) == apply_rule(
        true,
        rules.take(1)[0],
        os_name,
        os_arch,
    ));
}

} // verus!
