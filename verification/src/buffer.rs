//! The editable buffer: a line of text and a cursor, held by
//! `shrs_utils::CursorBuffer`.
//!
//! The buffer itself is not verified here. Its contents go by two names,
//! [`buffer_text`] and [`buffer_cursor`], and each operation the editor uses is
//! stated over them. All positions count characters, not bytes.

use shrs_utils::CursorBuffer;
use vstd::prelude::*;
use vstd::string::StrSliceExecFns;

verus! {

/// `shrs_utils::CursorBuffer`, of which nothing is known but what the
/// functions of this file state.
#[verifier::external_type_specification]
#[verifier::external_body]
pub struct ExCursorBuffer(shrs_utils::CursorBuffer);

/// The characters held by the buffer, first to last.
pub uninterp spec fn buffer_text(cb: CursorBuffer) -> Seq<char>;

/// The cursor of the buffer: the number of characters that stand before it.
pub uninterp spec fn buffer_cursor(cb: CursorBuffer) -> nat;

/// A position in the buffer, as `shrs_utils::Location` names it.
#[derive(Clone, Copy, Debug, PartialEq, Eq, Structural)]
pub enum Location {
    /// Counted from the start of the text.
    Abs(usize),
    /// Counted from the cursor.
    Rel(isize),
}

/// Why a buffer operation was refused, as `shrs_utils::Error` names it.
#[derive(Clone, Copy, Debug, PartialEq, Eq, Structural)]
pub enum BufferError {
    /// No position lies this far from the cursor.
    InvalidRelativeLocation(isize),
    /// No position lies this far from the start of the text.
    InvalidAbsoluteLocation(usize),
    /// More was to be taken out than the buffer holds.
    DeletingTooMuch,
}

impl Location {
    /// The cursor itself.
    pub fn cursor() -> (loc: Location)
        ensures
            loc == Location::Rel(0),
    {
        Location::Rel(0)
    }

    /// One character before the cursor.
    pub fn before() -> (loc: Location)
        ensures
            loc == Location::Rel(-1isize),
    {
        Location::Rel(-1)
    }

    /// One character after the cursor.
    pub fn after() -> (loc: Location)
        ensures
            loc == Location::Rel(1),
    {
        Location::Rel(1)
    }

    /// The start of the text.
    pub fn front() -> (loc: Location)
        ensures
            loc == Location::Abs(0),
    {
        Location::Abs(0)
    }

    /// The error that names this location as invalid.
    pub open spec fn invalid(self) -> BufferError {
        match self {
            Location::Abs(i) => BufferError::InvalidAbsoluteLocation(i),
            Location::Rel(off) => BufferError::InvalidRelativeLocation(off),
        }
    }

    /// The same error, computed.
    pub fn to_error(self) -> (e: BufferError)
        ensures
            e == self.invalid(),
    {
        match self {
            Location::Abs(i) => BufferError::InvalidAbsoluteLocation(i),
            Location::Rel(off) => BufferError::InvalidRelativeLocation(off),
        }
    }
}

/// Whether a buffer of `len` characters leaves room for `extra` more: every
/// position of the longer text still fits a signed machine word.
pub open spec fn has_room(len: nat, cursor: nat, extra: nat) -> bool {
    len + extra <= isize::MAX && cursor <= isize::MAX
}

/// The absolute position that `loc` names in a text of `len` characters with
/// the cursor at `cursor`, or the error that refuses it. A position is valid
/// from `0` to `len`, both included.
pub open spec fn resolve(len: nat, cursor: nat, loc: Location) -> Result<nat, BufferError> {
    match loc {
        Location::Abs(i) => if i <= len && has_room(len, cursor, 0) {
            Ok(i as nat)
        } else {
            Err(loc.invalid())
        },
        Location::Rel(off) => if 0 <= cursor + off <= len && has_room(len, cursor, 0) {
            Ok((cursor + off) as nat)
        } else {
            Err(loc.invalid())
        },
    }
}

/// Where an insertion of `count` characters at `loc` lands, or the error that
/// refuses it.
pub open spec fn insert_target(len: nat, cursor: nat, loc: Location, count: nat) -> Result<
    nat,
    BufferError,
> {
    if has_room(len, cursor, count) {
        resolve(len, cursor, loc)
    } else {
        Err(loc.invalid())
    }
}

/// `text` with `added` put in at position `at`.
pub open spec fn spliced(text: Seq<char>, at: int, added: Seq<char>) -> Seq<char> {
    text.subrange(0, at) + added + text.subrange(at, text.len() as int)
}

/// `text` without the characters from `lo` up to `hi`.
pub open spec fn removed(text: Seq<char>, lo: int, hi: int) -> Seq<char> {
    text.subrange(0, lo) + text.subrange(hi, text.len() as int)
}

/// `CursorBuffer::default`: an empty text with the cursor at its start.
#[verifier::external_body]
pub(crate) fn raw_new() -> (cb: CursorBuffer)
    ensures
        buffer_text(cb) == Seq::<char>::empty(),
        buffer_cursor(cb) == 0,
{
    CursorBuffer::default()
}

/// `CursorBuffer::cursor`: the cursor's position.
#[verifier::external_body]
pub(crate) fn raw_cursor(cb: &CursorBuffer) -> (c: usize)
    ensures
        c == buffer_cursor(*cb),
{
    cb.cursor()
}

/// `CursorBuffer::len`: the number of characters in the text.
#[verifier::external_body]
pub(crate) fn raw_len(cb: &CursorBuffer) -> (n: usize)
    ensures
        n == buffer_text(*cb).len(),
{
    cb.len()
}

/// `CursorBuffer::as_str`: the whole text, here as an owned string.
#[verifier::external_body]
pub(crate) fn raw_text(cb: &CursorBuffer) -> (s: String)
    ensures
        s@ == buffer_text(*cb),
{
    cb.as_str().into_owned()
}

/// `CursorBuffer::clear`: empties the text and puts the cursor at its start.
#[verifier::external_body]
pub(crate) fn raw_clear(cb: &mut CursorBuffer)
    ensures
        buffer_text(*final(cb)) == Seq::<char>::empty(),
        buffer_cursor(*final(cb)) == 0,
{
    cb.clear()
}

/// `CursorBuffer::move_cursor`: puts the cursor at `loc` where that is a valid
/// position and leaves the buffer as it was where it is not. The text never
/// changes. The precondition keeps the buffer's signed arithmetic in range.
#[verifier::external_body]
pub(crate) fn raw_move_cursor(cb: &mut CursorBuffer, loc: Location) -> (r: Result<(), BufferError>)
    requires
        has_room(buffer_text(*old(cb)).len(), buffer_cursor(*old(cb)), 0),
        loc matches Location::Rel(off) ==> buffer_cursor(*old(cb)) + off <= isize::MAX,
    ensures
        buffer_text(*final(cb)) == buffer_text(*old(cb)),
        match resolve(buffer_text(*old(cb)).len(), buffer_cursor(*old(cb)), loc) {
            Ok(at) => r == Ok::<(), BufferError>(()) && buffer_cursor(*final(cb)) == at,
            Err(e) => r == Err::<(), BufferError>(e) && buffer_cursor(*final(cb)) == buffer_cursor(
                *old(cb),
            ),
        },
{
    let at = match loc {
        Location::Abs(i) => shrs_utils::Location::Abs(i),
        Location::Rel(off) => shrs_utils::Location::Rel(off),
    };
    match cb.move_cursor(at) {
        Ok(()) => Ok(()),
        Err(shrs_utils::Error::InvalidRelativeLocation(o)) => Err(BufferError::InvalidRelativeLocation(o)),
        Err(shrs_utils::Error::InvalidAbsoluteLocation(i)) => Err(BufferError::InvalidAbsoluteLocation(i)),
        Err(shrs_utils::Error::DeletingTooMuch) => Err(BufferError::DeletingTooMuch),
    }
}

/// `CursorBuffer::insert`: puts `text` in at `loc` and leaves the cursor just
/// after it; where `loc` is not a valid position nothing changes. The
/// precondition keeps the buffer's signed arithmetic in range.
#[verifier::external_body]
pub(crate) fn raw_insert(cb: &mut CursorBuffer, loc: Location, text: &str) -> (r: Result<
    (),
    BufferError,
>)
    requires
        has_room(buffer_text(*old(cb)).len(), buffer_cursor(*old(cb)), text@.len()),
        loc matches Location::Rel(off) ==> buffer_cursor(*old(cb)) + off <= isize::MAX,
    ensures
        match resolve(buffer_text(*old(cb)).len(), buffer_cursor(*old(cb)), loc) {
            Ok(at) => {
                &&& r == Ok::<(), BufferError>(())
                &&& buffer_text(*final(cb)) == spliced(buffer_text(*old(cb)), at as int, text@)
                &&& buffer_cursor(*final(cb)) == at + text@.len()
            },
            Err(e) => {
                &&& r == Err::<(), BufferError>(e)
                &&& buffer_text(*final(cb)) == buffer_text(*old(cb))
                &&& buffer_cursor(*final(cb)) == buffer_cursor(*old(cb))
            },
        },
{
    let at = match loc {
        Location::Abs(i) => shrs_utils::Location::Abs(i),
        Location::Rel(off) => shrs_utils::Location::Rel(off),
    };
    match cb.insert(at, text) {
        Ok(()) => Ok(()),
        Err(shrs_utils::Error::InvalidRelativeLocation(o)) => Err(BufferError::InvalidRelativeLocation(o)),
        Err(shrs_utils::Error::InvalidAbsoluteLocation(i)) => Err(BufferError::InvalidAbsoluteLocation(i)),
        Err(shrs_utils::Error::DeletingTooMuch) => Err(BufferError::DeletingTooMuch),
    }
}

/// `CursorBuffer::delete`: takes out the characters between the two
/// locations, whichever comes first, and leaves the cursor where they began;
/// where either is not a valid position nothing changes, and the error is that
/// of `start` if both are refused. The precondition keeps the buffer's signed
/// arithmetic in range.
#[verifier::external_body]
pub(crate) fn raw_delete(cb: &mut CursorBuffer, start: Location, end: Location) -> (r: Result<
    (),
    BufferError,
>)
    requires
        has_room(buffer_text(*old(cb)).len(), buffer_cursor(*old(cb)), 0),
        start matches Location::Rel(off) ==> buffer_cursor(*old(cb)) + off <= isize::MAX,
        end matches Location::Rel(off) ==> buffer_cursor(*old(cb)) + off <= isize::MAX,
    ensures
        match delete_range(buffer_text(*old(cb)).len(), buffer_cursor(*old(cb)), start, end) {
            Ok((lo, hi)) => {
                &&& r == Ok::<(), BufferError>(())
                &&& buffer_text(*final(cb)) == removed(buffer_text(*old(cb)), lo as int, hi as int)
                &&& buffer_cursor(*final(cb)) == lo
            },
            Err(e) => {
                &&& r == Err::<(), BufferError>(e)
                &&& buffer_text(*final(cb)) == buffer_text(*old(cb))
                &&& buffer_cursor(*final(cb)) == buffer_cursor(*old(cb))
            },
        },
{
    let a = match start {
        Location::Abs(i) => shrs_utils::Location::Abs(i),
        Location::Rel(off) => shrs_utils::Location::Rel(off),
    };
    let b = match end {
        Location::Abs(i) => shrs_utils::Location::Abs(i),
        Location::Rel(off) => shrs_utils::Location::Rel(off),
    };
    match cb.delete(a, b) {
        Ok(()) => Ok(()),
        Err(shrs_utils::Error::InvalidRelativeLocation(o)) => Err(BufferError::InvalidRelativeLocation(o)),
        Err(shrs_utils::Error::InvalidAbsoluteLocation(i)) => Err(BufferError::InvalidAbsoluteLocation(i)),
        Err(shrs_utils::Error::DeletingTooMuch) => Err(BufferError::DeletingTooMuch),
    }
}

/// The range that a deletion between `start` and `end` takes out, lower end
/// first, or the error that refuses it.
pub open spec fn delete_range(len: nat, cursor: nat, start: Location, end: Location) -> Result<
    (nat, nat),
    BufferError,
> {
    match resolve(len, cursor, start) {
        Err(e) => Err(e),
        Ok(a) => match resolve(len, cursor, end) {
            Err(e) => Err(e),
            Ok(b) => if a <= b {
                Ok((a, b))
            } else {
                Ok((b, a))
            },
        },
    }
}

/// Whether the buffer leaves room for `extra` more characters.
fn room_for(cb: &CursorBuffer, extra: usize) -> (ok: bool)
    ensures
        ok == has_room(buffer_text(*cb).len(), buffer_cursor(*cb), extra as nat),
{
    let n = raw_len(cb);
    let c = raw_cursor(cb);
    let max = isize::MAX as usize;
    n <= max && extra <= max - n && c <= max
}

/// Whether a step of `loc` from the cursor stays within a signed machine word.
fn step_fits(cb: &CursorBuffer, loc: Location) -> (ok: bool)
    requires
        buffer_cursor(*cb) <= isize::MAX,
    ensures
        ok == (loc matches Location::Rel(off) ==> buffer_cursor(*cb) + off <= isize::MAX),
{
    match loc {
        Location::Abs(_) => true,
        Location::Rel(off) => {
            let c = raw_cursor(cb);
            c as i128 + off as i128 <= isize::MAX as i128
        },
    }
}

/// The absolute position that `loc` names in the buffer as it stands.
pub fn locate(cb: &CursorBuffer, loc: Location) -> (r: Result<usize, BufferError>)
    ensures
        match resolve(buffer_text(*cb).len(), buffer_cursor(*cb), loc) {
            Ok(at) => r == Ok::<usize, BufferError>(at as usize),
            Err(e) => r == Err::<usize, BufferError>(e),
        },
{
    if !room_for(cb, 0) {
        return Err(loc.to_error());
    }
    let n = raw_len(cb);
    match loc {
        Location::Abs(i) => if i <= n {
            Ok(i)
        } else {
            Err(loc.to_error())
        },
        Location::Rel(off) => {
            let target: i128 = raw_cursor(cb) as i128 + off as i128;
            if 0 <= target && target <= n as i128 {
                Ok(target as usize)
            } else {
                Err(loc.to_error())
            }
        },
    }
}

/// Puts the cursor at `loc`. Where `loc` is not a valid position the buffer
/// stays as it was and the error names `loc`.
pub fn move_cursor(cb: &mut CursorBuffer, loc: Location) -> (r: Result<(), BufferError>)
    ensures
        buffer_text(*final(cb)) == buffer_text(*old(cb)),
        match resolve(buffer_text(*old(cb)).len(), buffer_cursor(*old(cb)), loc) {
            Ok(at) => r == Ok::<(), BufferError>(()) && buffer_cursor(*final(cb)) == at,
            Err(e) => r == Err::<(), BufferError>(e) && buffer_cursor(*final(cb)) == buffer_cursor(
                *old(cb),
            ),
        },
{
    if !room_for(cb, 0) || !step_fits(cb, loc) {
        return Err(loc.to_error());
    }
    raw_move_cursor(cb, loc)
}

/// Puts `text` in at `loc` and leaves the cursor just after it. Where the
/// insertion is refused the buffer stays as it was and the error names `loc`.
pub fn insert(cb: &mut CursorBuffer, loc: Location, text: &str) -> (r: Result<(), BufferError>)
    ensures
        match insert_target(
            buffer_text(*old(cb)).len(),
            buffer_cursor(*old(cb)),
            loc,
            text@.len(),
        ) {
            Ok(at) => {
                &&& r == Ok::<(), BufferError>(())
                &&& buffer_text(*final(cb)) == spliced(buffer_text(*old(cb)), at as int, text@)
                &&& buffer_cursor(*final(cb)) == at + text@.len()
            },
            Err(e) => {
                &&& r == Err::<(), BufferError>(e)
                &&& buffer_text(*final(cb)) == buffer_text(*old(cb))
                &&& buffer_cursor(*final(cb)) == buffer_cursor(*old(cb))
            },
        },
{
    let count = text.unicode_len();
    if !room_for(cb, count) || !step_fits(cb, loc) {
        return Err(loc.to_error());
    }
    raw_insert(cb, loc, text)
}

/// Takes out the characters between `start` and `end`, whichever comes first,
/// and leaves the cursor where they began. Where either location is not a
/// valid position the buffer stays as it was; the error names `start` if that
/// is refused, else `end`.
pub fn delete(cb: &mut CursorBuffer, start: Location, end: Location) -> (r: Result<
    (),
    BufferError,
>)
    ensures
        match delete_range(buffer_text(*old(cb)).len(), buffer_cursor(*old(cb)), start, end) {
            Ok((lo, hi)) => {
                &&& r == Ok::<(), BufferError>(())
                &&& buffer_text(*final(cb)) == removed(buffer_text(*old(cb)), lo as int, hi as int)
                &&& buffer_cursor(*final(cb)) == lo
            },
            Err(e) => {
                &&& r == Err::<(), BufferError>(e)
                &&& buffer_text(*final(cb)) == buffer_text(*old(cb))
                &&& buffer_cursor(*final(cb)) == buffer_cursor(*old(cb))
            },
        },
{
    if !room_for(cb, 0) || !step_fits(cb, start) {
        return Err(start.to_error());
    }
    if !step_fits(cb, end) {
        return match locate(cb, start) {
            Ok(_) => Err(end.to_error()),
            Err(e) => Err(e),
        };
    }
    raw_delete(cb, start, end)
}

/// Replaces the whole text by `text` and leaves the cursor at its end. A text
/// too long for the machine's signed arithmetic is refused, and the buffer is
/// then left empty.
pub fn overwrite(cb: &mut CursorBuffer, text: &str) -> (r: Result<(), BufferError>)
    ensures
        text@.len() <= isize::MAX ==> {
            &&& r == Ok::<(), BufferError>(())
            &&& buffer_text(*final(cb)) == text@
            &&& buffer_cursor(*final(cb)) == text@.len()
        },
        text@.len() > isize::MAX ==> {
            &&& r == Err::<(), BufferError>(BufferError::InvalidRelativeLocation(0))
            &&& buffer_text(*final(cb)) == Seq::<char>::empty()
            &&& buffer_cursor(*final(cb)) == 0
        },
{
    raw_clear(cb);
    let r = insert(cb, Location::cursor(), text);
    r
}

} // verus!
