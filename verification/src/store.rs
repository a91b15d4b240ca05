//! The persisted result: the text that a cache run leaves behind, and what
//! read mode makes of the store it finds.

use vstd::prelude::*;
use vstd::string::StringExecFns;

verus! {

/// The name of the file that holds the persisted result.
pub const RESULT_FILE: &'static str = "result.txt";

/// What the persisted line begins with, before the value.
pub open spec fn result_prefix() -> Seq<char> {
    "Final aggregate of USD prices of BTC: "@
}

/// The whole text of the store after a cache run whose final aggregate is
/// written `value`: one line, ended by a line feed.
pub open spec fn persisted_text(value: Seq<char>) -> Seq<char> {
    result_prefix() + value + "\n"@
}

/// Builds the text that a cache run puts in place of whatever the store
/// held before.
pub fn result_text(value: &str) -> (text: String)
    ensures
        text@ == persisted_text(value@),
{
    let mut text = String::from_str("Final aggregate of USD prices of BTC: ");
    text.append(value);
    text.append("\n");
    text
}

/// What read mode finds in place of the store.
#[derive(Clone, Copy, PartialEq, Eq, Structural, Debug)]
pub enum StoreState {
    /// There is no store: no cache run has left one.
    Absent,
    /// There is a store and it holds nothing.
    Empty,
    /// There is a store and it holds text.
    Filled,
}

/// Tells the three states of the store apart by its size in bytes, where
/// `None` stands for a store that could not be found.
pub fn store_state(size: Option<u64>) -> (state: StoreState)
    ensures
        state == match size {
            None => StoreState::Absent,
            Some(bytes) => if bytes == 0 {
                StoreState::Empty
            } else {
                StoreState::Filled
            },
        },
{
    match size {
        None => StoreState::Absent,
        Some(bytes) => if bytes == 0 {
            StoreState::Empty
        } else {
            StoreState::Filled
        },
    }
}

/// What read mode says of a store that does not exist.
pub open spec fn absent_notice() -> Seq<char> {
    "The result.txt file does not exist. Run in cache mode first."@
}

/// What read mode says of a store that holds nothing.
pub open spec fn empty_notice() -> Seq<char> {
    "The result.txt file is empty. Run in cache mode first."@
}

/// What read mode says in place of the store's text: a notice where the
/// store is absent, another where it is empty, and nothing where it holds
/// text, which is then shown as it is.
pub fn notice_for(state: StoreState) -> (notice: Option<String>)
    ensures
        match state {
            StoreState::Absent => notice matches Some(text) && text@ == absent_notice(),
            StoreState::Empty => notice matches Some(text) && text@ == empty_notice(),
            StoreState::Filled => notice is None,
        },
{
    match state {
        StoreState::Absent => Some(
            String::from_str("The result.txt file does not exist. Run in cache mode first."),
        ),
        StoreState::Empty => Some(
            String::from_str("The result.txt file is empty. Run in cache mode first."),
        ),
        StoreState::Filled => None,
    }
}

/// The two notices differ, so a reader can tell a store that was never
/// written from one that holds nothing.
pub proof fn lemma_notices_differ()
    ensures
        absent_notice() != empty_notice(),
{
    reveal_strlit("The result.txt file does not exist. Run in cache mode first.");
    reveal_strlit("The result.txt file is empty. Run in cache mode first.");
    assert(absent_notice()[20] == 'd');
    assert(empty_notice()[20] == 'i');
}

} // verus!
