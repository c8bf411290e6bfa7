//! The boundary with the Soroban host: turning event topics into symbols.
//!
//! A Soroban symbol is a host value; `soroban_sdk::Symbol::new` panics unless
//! its text is a valid symbol name. Every topic name the library hands to it
//! is proved valid here, so building a topic never reverts.

use vstd::prelude::*;
use crate::types::is_symbol_name;
use crate::events::{EventTopic, topic_names, topic_of, lemma_topic_names_are_symbols};

verus! {

#[verifier::external_type_specification]
#[verifier::external_body]
pub struct ExEnv(soroban_sdk::Env);

#[verifier::external_type_specification]
#[verifier::external_body]
pub struct ExSymbol(soroban_sdk::Symbol);

/// Calls `soroban_sdk::Symbol::new(env, name)`. That function panics unless
/// `name` is at most 32 characters from `a-zA-Z0-9_`, which the `requires`
/// excludes. The symbol it returns spells `name`; that is left unstated,
/// because a symbol is a host value (its text lives in the host for names
/// longer than 9 characters) and no plain value stands for it here.
#[verifier::external_body]
fn new_symbol(env: &soroban_sdk::Env, name: &str) -> (s: soroban_sdk::Symbol)
    requires
        is_symbol_name(name@),
{
    soroban_sdk::Symbol::new(env, name)
}

/// The topic of an event as host symbols, in the order they are published.
pub enum TopicSymbols {
    One(soroban_sdk::Symbol),
    Two(soroban_sdk::Symbol, soroban_sdk::Symbol),
}

/// Builds the host symbols for `topic`. A fixed topic gets one symbol per
/// name of [`topic_of`], the i-th symbol made from the i-th name (so this
/// never panics: every name is a valid symbol); a caller-given pair is
/// passed through unchanged. The contract fixes the number of symbols; which
/// text each carries is left unstated, as for [`new_symbol`].
pub fn topic_symbols(env: &soroban_sdk::Env, topic: EventTopic) -> (t: TopicSymbols)
    ensures
        match topic {
            EventTopic::Fixed(kind) => {
                &&& topic_of(kind).len() == 1 ==> t is One
                &&& topic_of(kind).len() == 2 ==> t is Two
            },
            EventTopic::Given(a, b) => t == TopicSymbols::Two(a, b),
        },
{
    match topic {
        EventTopic::Fixed(kind) => {
            let names = topic_names(kind);
            proof {
                lemma_topic_names_are_symbols(kind);
                assert(names@[0]@ == topic_of(kind)[0]);
            }
            if names.len() == 1 {
                TopicSymbols::One(new_symbol(env, names[0]))
            } else {
                proof {
                    assert(names@[1]@ == topic_of(kind)[1]);
                }
                TopicSymbols::Two(new_symbol(env, names[0]), new_symbol(env, names[1]))
            }
        },
        EventTopic::Given(a, b) => TopicSymbols::Two(a, b),
    }
}

} // verus!
