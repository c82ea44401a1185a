//! Normal-mode commands: the grammar of `shrs_vi`, and the interface of the
//! engine that carries a command out on the buffer.

use crate::buffer::{BufferError, Location};
use crate::state::LineMode;
use shrs_utils::CursorBuffer;
use shrs_vi::{Action, Command, Motion};
use vstd::prelude::*;

verus! {

/// `shrs_vi::Motion`, with its variants as the crate declares them.
#[verifier::external_type_specification]
pub struct ExMotion(shrs_vi::Motion);

/// `shrs_vi::Action`, with its variants as the crate declares them.
#[verifier::external_type_specification]
pub struct ExAction(shrs_vi::Action);

/// `shrs_vi::Command`, with its fields as the crate declares them.
#[verifier::external_type_specification]
pub struct ExCommand(shrs_vi::Command);

/// The derived `Clone` of `Action`: the copy equals the action it was made from.
pub assume_specification[ <Action as Clone>::clone ](a: &Action) -> (r: Action)
    ensures
        r == *a,
;

/// The command that the keys typed so far spell in the grammar of `shrs_vi`,
/// or `None` while they spell none.
pub uninterp spec fn vi_parse(keys: Seq<char>) -> Option<Command>;

/// Whether `c` is one of the digits `0` to `9`.
pub open spec fn is_digit(c: char) -> bool {
    '0' <= c && c <= '9'
}

/// The decimal value of the run of digits that ends just before `end`.
pub open spec fn run_value(s: Seq<char>, end: int) -> nat
    decreases end,
{
    if end <= 0 || end > s.len() || !is_digit(s[end - 1]) {
        0
    } else {
        run_value(s, end - 1) * 10 + (s[end - 1] as u32 - '0' as u32) as nat
    }
}

/// Whether every number written in `s` fits the 32 bits of a repeat count.
pub open spec fn counts_fit(s: Seq<char>) -> bool {
    forall|end: int| 0 <= end <= s.len() ==> #[trigger] run_value(s, end) <= u32::MAX
}

/// `Parser::parse` on a fresh parser: the command that `keys` spell. The
/// grammar reads every run of digits as a 32-bit number, so the precondition
/// leaves out keys that write a larger one.
#[verifier::external_body]
pub(crate) fn raw_parse(keys: &str) -> (r: Option<Command>)
    requires
        counts_fit(keys@),
    ensures
        r == vi_parse(keys@),
{
    shrs_vi::Parser::default().parse(keys).ok()
}

/// Whether every number written in `keys` fits a repeat count.
pub fn check_counts(keys: &Vec<char>) -> (ok: bool)
    ensures
        ok == counts_fit(keys@),
{
    let mut value: u64 = 0;
    let mut i: usize = 0;
    while i < keys.len()
        invariant
            i <= keys.len(),
            value == run_value(keys@, i as int),
            forall|end: int| 0 <= end <= i ==> #[trigger] run_value(keys@, end) <= u32::MAX,
        decreases keys.len() - i,
    {
        let c = keys[i];
        if '0' <= c && c <= '9' {
            value = value * 10 + (c as u32 - '0' as u32) as u64;
        } else {
            value = 0;
        }
        i += 1;
        if value > u32::MAX as u64 {
            assert(run_value(keys@, i as int) > u32::MAX);
            return false;
        }
    }
    true
}

/// The command that `keys` spell, if they spell one. Keys that write a number
/// too large for a repeat count spell none.
pub fn parse(keys: &str) -> (r: Option<Command>)
    ensures
        r == spelled(keys@),
{
    let chars = crate::text::chars_of(keys);
    if check_counts(&chars) {
        raw_parse(keys)
    } else {
        None
    }
}

/// What [`parse`] returns for the keys `keys`.
pub open spec fn spelled(keys: Seq<char>) -> Option<Command> {
    if counts_fit(keys) {
        vi_parse(keys)
    } else {
        None
    }
}

/// The engine behind normal mode: it turns motions into buffer locations and
/// carries actions out on the buffer. The editor decides when to call it and
/// what to do with its answers; what it does to the buffer is its own affair.
pub trait ViCursorBuffer {
    /// The location that `motion` leads to from the cursor of `cb`.
    fn motion_to_loc(&self, cb: &CursorBuffer, motion: Motion) -> Result<Location, BufferError>;

    /// Carries `action` out on `cb` and says which mode the editor is in
    /// afterwards.
    fn execute_vi(&mut self, cb: &mut CursorBuffer, action: Action) -> Result<
        LineMode,
        BufferError,
    >;
}

} // verus!
