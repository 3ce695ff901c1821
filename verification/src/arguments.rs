//! Launch arguments: plain strings or rule-gated argument groups, with
//! the filter that drops arguments the engine never passes on.

use vstd::prelude::*;

use crate::either::Either;
use crate::os::Platform;
use crate::rules::{check_rules, rules_allow, Rule};
use crate::text::str_eq;

verus! {

/// Whether the engine drops `arg` instead of passing it to the game.
pub open spec fn is_skipped(arg: Seq<char>) -> bool {
    ||| arg == "--clientId"@
    ||| arg == "--xuid"@
    ||| arg == "${clientid}"@
    ||| arg == "${auth_xuid}"@
}

/// Checks whether the engine drops `arg`.
pub fn check_skip_argument(arg: &str) -> (r: bool)
    ensures
        r == is_skipped(arg@),
{
    str_eq(arg, "--clientId") || str_eq(arg, "--xuid") || str_eq(arg, "${clientid}") || str_eq(
        arg,
        "${auth_xuid}",
    )
}

/// An argument that is either a plain string or a rule-gated group.
#[derive(Debug)]
pub enum Argument {
    /// Simple argument.
    Simple(String),
    /// Complex argument with rules defined.
    Complex(ComplexArgument),
}

/// A rule-gated argument group whose value is one string or several.
#[derive(Debug)]
pub struct ComplexArgument {
    /// The rules gating this argument.
    pub rules: Vec<Rule>,
    /// The argument itself: a single string or a list.
    pub value: Either<String, Vec<String>>,
}

impl ComplexArgument {
    /// The group's values as a uniform list.
    pub open spec fn value_texts(&self) -> Seq<Seq<char>> {
        match self.value {
            Either::Left(v) => seq![v@],
            Either::Right(xs) => xs.deep_view(),
        }
    }

    /// Checks whether the group is used on the probed platform.
    pub fn check_use(&self, current: &Platform) -> (r: bool)
        ensures
            r == rules_allow(self.rules@, *current),
    {
        check_rules(&self.rules, current)
    }

    /// The group's values in a uniform list form.
    pub fn value(&self) -> (r: Vec<String>)
        ensures
            r.deep_view() == self.value_texts(),
    {
        match &self.value {
            Either::Left(v) => {
                let mut r: Vec<String> = Vec::new();
                r.push(v.clone());
                proof {
                    assert(r.deep_view() =~= seq![v@]);
                }
                r
            },
            Either::Right(xs) => {
                let mut r: Vec<String> = Vec::new();
                let mut i: usize = 0;
                while i < xs.len()
                    invariant
                        i <= xs@.len(),
                        r@.len() == i,
                        forall|k: int| 0 <= k < i ==> r@[k] == xs@[k],
                    decreases xs@.len() - i,
                {
                    r.push(xs[i].clone());
                    i += 1;
                }
                proof {
                    assert(r@ =~= xs@);
                    assert(r.deep_view() =~= xs.deep_view());
                }
                r
            },
        }
    }
}

/// The values of `vals` that the engine keeps, in order.
pub open spec fn kept_values(vals: Seq<Seq<char>>) -> Seq<Seq<char>>
    decreases vals.len(),
{
    if vals.len() == 0 {
        Seq::empty()
    } else {
        (if is_skipped(vals[0]) {
            Seq::empty()
        } else {
            seq![vals[0]]
        }) + kept_values(vals.skip(1))
    }
}

/// What one argument contributes: a kept simple argument contributes
/// itself, a dropped one nothing; a group contributes its kept values
/// when its rules allow it on `current`, and nothing otherwise.
pub open spec fn argument_contribution(arg: Argument, current: Platform) -> Seq<Seq<char>> {
    match arg {
        Argument::Simple(s) => if is_skipped(s@) {
            Seq::empty()
        } else {
            seq![s@]
        },
        Argument::Complex(c) => if rules_allow(c.rules@, current) {
            kept_values(c.value_texts())
        } else {
            Seq::empty()
        },
    }
}

/// The arguments collected from `args`, in order.
pub open spec fn collected_arguments(args: Seq<Argument>, current: Platform) -> Seq<Seq<char>>
    decreases args.len(),
{
    if args.len() == 0 {
        Seq::empty()
    } else {
        argument_contribution(args[0], current) + collected_arguments(args.skip(1), current)
    }
}

/// Collects the arguments of `args` that apply on `current`, dropping
/// the ones the engine never passes on.
fn collect_args(args: &Vec<Argument>, current: &Platform) -> (r: Vec<String>)
    ensures
        r.deep_view() == collected_arguments(args@, *current),
{
    let mut r: Vec<String> = Vec::new();
    let mut i: usize = 0;
    proof {
        assert(args@.skip(0) =~= args@);
        assert(r.deep_view() + collected_arguments(args@, *current) =~= collected_arguments(
            args@,
            *current,
        ));
    }
    while i < args.len()
        invariant
            i <= args@.len(),
            collected_arguments(args@, *current) == r.deep_view() + collected_arguments(
                args@.skip(i as int),
                *current,
            ),
        decreases args@.len() - i,
    {
        proof {
            assert(args@.skip(i as int)[0] == args@[i as int]);
            assert(args@.skip(i as int).skip(1) =~= args@.skip(i as int + 1));
        }
        let ghost prefix = r.deep_view();
        match &args[i] {
            Argument::Simple(simple) => {
                if !check_skip_argument(simple.as_str()) {
                    r.push(simple.clone());
                    proof {
                        assert(r.deep_view() =~= prefix + seq![simple@]);
                    }
                } else {
                    proof {
                        assert(r.deep_view() + Seq::<Seq<char>>::empty() =~= r.deep_view());
                    }
                }
            },
            Argument::Complex(complex) => {
                if complex.check_use(current) {
                    let values = complex.value();
                    let ghost texts = complex.value_texts();
                    let mut j: usize = 0;
                    proof {
                        assert(texts.skip(0) =~= texts);
                    }
                    while j < values.len()
                        invariant
                            j <= values@.len(),
                            values.deep_view() == texts,
                            values@.len() == texts.len(),
                            prefix + kept_values(texts) == r.deep_view() + kept_values(
                                texts.skip(j as int),
                            ),
                        decreases values@.len() - j,
                    {
                        proof {
                            assert(texts.skip(j as int)[0] == texts[j as int]);
                            assert(texts.skip(j as int).skip(1) =~= texts.skip(j as int + 1));
                            assert(texts[j as int] == values@[j as int]@);
                        }
                        let ghost before = r.deep_view();
                        if !check_skip_argument(values[j].as_str()) {
                            r.push(values[j].clone());
                            proof {
                                assert(r.deep_view() =~= before + seq![texts[j as int]]);
                            }
                        }
                        j += 1;
                    }
                    proof {
                        assert(texts.skip(texts.len() as int).len() == 0);
                        assert(r.deep_view() =~= prefix + kept_values(texts));
                    }
                } else {
                    proof {
                        assert(r.deep_view() + Seq::<Seq<char>>::empty() =~= r.deep_view());
                    }
                }
            },
        }
        i += 1;
    }
    proof {
        assert(args@.skip(args@.len() as int).len() == 0);
    }
    r
}

/// The launch arguments of a version: game and JVM lists.
#[derive(Debug)]
pub struct Arguments {
    /// Game arguments.
    pub game: Vec<Argument>,
    /// JVM arguments.
    pub jvm: Vec<Argument>,
}

impl Arguments {
    /// The JVM arguments that apply on `current`, with the dropped
    /// arguments filtered out.
    pub fn jvm_arguments(&self, current: &Platform) -> (r: Vec<String>)
        ensures
            r.deep_view() == collected_arguments(self.jvm@, *current),
    {
        collect_args(&self.jvm, current)
    }

    /// The game arguments that apply on `current`, with the dropped
    /// arguments filtered out.
    pub fn game_arguments(&self, current: &Platform) -> (r: Vec<String>)
        ensures
            r.deep_view() == collected_arguments(self.game@, *current),
    {
        collect_args(&self.game, current)
    }
}

} // verus!
