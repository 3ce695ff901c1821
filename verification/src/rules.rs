//! The rule evaluator: decides whether a conditional artifact or argument
//! applies on the probed platform.

use vstd::prelude::*;

use crate::os::Platform;

verus! {

/// Action of a rule.
#[derive(Clone, Copy, Debug, PartialEq, Eq, Structural)]
pub enum Action {
    /// Allow functionality.
    Allow,
    /// Disallow functionality.
    Disallow,
}

impl Action {
    /// The action read as a plain boolean.
    pub open spec fn as_allow(&self) -> bool {
        *self == Action::Allow
    }

    /// Converts the action to a `bool`.
    pub fn to_bool(&self) -> (b: bool)
        ensures
            b == self.as_allow(),
    {
        match self {
            Action::Allow => true,
            Action::Disallow => false,
        }
    }
}

/// The OS constraint a rule may carry.
#[derive(Debug)]
pub struct Os {
    /// The platform the rule is conditioned on.
    pub platform: Option<Platform>,
    /// Version of the platform.
    pub version: Option<String>,
    /// Architecture of the platform.
    pub arch: Option<crate::os::Architecture>,
}

/// The feature constraint a rule may carry.
#[derive(Clone, Copy, Debug)]
pub struct Features {
    /// Demo user.
    pub is_demo_user: Option<bool>,
    /// Custom resolution.
    pub has_custom_resolution: Option<bool>,
}

/// A rule that enables or disables an artifact on a specific platform.
#[derive(Debug)]
pub struct Rule {
    /// Whether the rule allows or disallows.
    pub action: Action,
    /// The OS constraint, if any.
    pub os: Option<Os>,
    /// The feature constraint, if any.
    pub features: Option<Features>,
}

impl Rule {
    /// What the rule decides on `current`:
    /// an unmet platform condition negates the action; any feature
    /// constraint blocks; otherwise the action is taken literally.
    pub open spec fn allows_spec(&self, current: Platform) -> bool {
        if self.os matches Some(os) && os.platform matches Some(p) && p != current {
            !self.action.as_allow()
        } else if self.features is Some {
            false
        } else {
            self.action.as_allow()
        }
    }

    /// Checks whether the rule allows functionality on `current`.
    pub fn allows(&self, current: &Platform) -> (r: bool)
        ensures
            r == self.allows_spec(*current),
    {
        if let Some(os) = &self.os {
            if let Some(platform) = &os.platform {
                if !platform.matches_current(current) {
                    return !self.action.to_bool();
                }
            }
        }
        if self.features.is_some() {
            return false;
        }
        self.action.to_bool()
    }
}

/// A rule list applies exactly when every rule in it allows;
/// the empty list always applies.
pub open spec fn rules_allow(rules: Seq<Rule>, current: Platform) -> bool {
    forall|i: int| 0 <= i < rules.len() ==> (#[trigger] rules[i]).allows_spec(current)
}

/// Evaluates a whole rule list on `current`.
pub fn check_rules(rules: &Vec<Rule>, current: &Platform) -> (r: bool)
    ensures
        r == rules_allow(rules@, *current),
{
    let mut i: usize = 0;
    while i < rules.len()
        invariant
            i <= rules@.len(),
            forall|k: int| 0 <= k < i ==> (#[trigger] rules@[k]).allows_spec(*current),
        decreases rules@.len() - i,
    {
        if !rules[i].allows(current) {
            return false;
        }
        i += 1;
    }
    true
}

/// Evaluating a rule list is the conjunction of evaluating its rules:
/// the empty list applies, and appending one rule conjoins its verdict.
pub proof fn lemma_rules_allow_conjunction(rules: Seq<Rule>, r: Rule, current: Platform)
    ensures
        rules_allow(Seq::<Rule>::empty(), current),
        rules_allow(rules.push(r), current) == (rules_allow(rules, current) && r.allows_spec(
            current,
        )),
{
    let pushed = rules.push(r);
    assert(pushed[rules.len() as int] == r);
    assert(forall|i: int| 0 <= i < rules.len() ==> pushed[i] == rules[i]);
    if rules_allow(rules, current) && r.allows_spec(current) {
        assert forall|i: int| 0 <= i < pushed.len() implies (#[trigger] pushed[i]).allows_spec(
            current,
        ) by {
            if i < rules.len() {
                assert(rules[i].allows_spec(current));
            }
        }
    }
}

impl Clone for Os {
    /// Field-for-field copy.
    fn clone(&self) -> (r: Self)
        ensures
            r == *self,
    {
        Os {
            platform: self.platform,
            version: match &self.version {
                Some(v) => Some(v.clone()),
                None => None,
            },
            arch: self.arch,
        }
    }
}

impl Clone for Rule {
    /// Field-for-field copy.
    fn clone(&self) -> (r: Self)
        ensures
            r == *self,
    {
        Rule { action: self.action, os: self.os.clone(), features: self.features }
    }
}

} // verus!
