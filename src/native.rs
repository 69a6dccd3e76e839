use vstd::prelude::*;

verus! {

/// A cell address in the console buffer grid: column `x`, row `y`, both
/// counted from zero.
#[derive(Clone, Copy, Debug, PartialEq, Eq, Structural)]
pub struct Coord {
    pub x: i16,
    pub y: i16,
}

/// A rectangle of cells, its bounds inclusive.
#[derive(Clone, Copy, Debug, PartialEq, Eq, Structural)]
pub struct SmallRect {
    pub left: i16,
    pub top: i16,
    pub right: i16,
    pub bottom: i16,
}

/// A snapshot of a console buffer's state, field for field as the console
/// reports it. Taken on demand and never kept across calls: a resize may
/// change the buffer at any time.
#[derive(Clone, Copy, Debug, PartialEq, Eq, Structural)]
pub struct BufferInfo {
    pub size: Coord,
    pub cursor_position: Coord,
    pub attributes: u16,
    pub window: SmallRect,
    pub maximum_window_size: Coord,
}

/// What a native console call reported: its status (zero for failure) and
/// the number of cells or units it wrote.
#[derive(Clone, Copy, Debug, PartialEq, Eq, Structural)]
pub struct NativeReply {
    pub status: i32,
    pub count: u32,
}

/// The character that `fill_console_output_character` writes: a blank.
pub const BLANK: u8 = 0x20;

/// Arguments of the native call that writes one character into `count`
/// cells, row-major from `start`.
#[derive(Clone, Copy, Debug, PartialEq, Eq, Structural)]
pub struct FillCharacter {
    pub character: u8,
    pub count: u32,
    pub start: Coord,
}

/// Arguments of the native call that writes one display attribute into
/// `count` cells, row-major from `start`.
#[derive(Clone, Copy, Debug, PartialEq, Eq, Structural)]
pub struct FillAttribute {
    pub attribute: u16,
    pub count: u32,
    pub start: Coord,
}

/// A structured block write that the console refused. Nothing of the
/// display can be trusted after it, so the caller stops.
#[derive(Clone, Copy, Debug, PartialEq, Eq, Structural)]
pub struct FatalNativeFailure {}

/// Maps the status that a native console call returns (zero for failure,
/// anything else for success) to the operation's success flag. Every native
/// call site goes through this one predicate.
pub fn is_success(status: i32) -> (r: bool)
    ensures
        r == (status != 0),
{
    status != 0
}

/// The outcome of a fill of `cells_to_write` cells, as (cells written,
/// success): a fill of no cells is a no-op that succeeds; otherwise the
/// native reply decides, and where no call was made nothing was written.
pub open spec fn fill_result(cells_to_write: u32, reply: Option<NativeReply>) -> (u32, bool) {
    if cells_to_write == 0 {
        (0, true)
    } else {
        match reply {
            Some(r) => (r.count, r.status != 0),
            None => (0, false),
        }
    }
}

/// The native call that blanks `cells_to_write` cells from `start`, or
/// `None` where there is nothing to fill and no call is to be made.
pub fn fill_character_call(start: Coord, cells_to_write: u32) -> (r: Option<FillCharacter>)
    ensures
        cells_to_write == 0 <==> r is None,
        r matches Some(c) ==> c.character == BLANK && c.count == cells_to_write && c.start == start,
{
    if cells_to_write == 0 {
        None
    } else {
        Some(FillCharacter { character: BLANK, count: cells_to_write, start })
    }
}

/// The native call that writes the snapshot's current attribute into
/// `cells_to_write` cells from `start`, or `None` where there is nothing to
/// fill and no call is to be made.
pub fn fill_attribute_call(
    info: &BufferInfo,
    start: Coord,
    cells_to_write: u32,
) -> (r: Option<FillAttribute>)
    ensures
        cells_to_write == 0 <==> r is None,
        r matches Some(c) ==> c.attribute == info.attributes && c.count == cells_to_write
            && c.start == start,
{
    if cells_to_write == 0 {
        None
    } else {
        Some(FillAttribute { attribute: info.attributes, count: cells_to_write, start })
    }
}

fn fill_outcome(cells_written: &mut u32, cells_to_write: u32, reply: Option<NativeReply>) -> (success: bool)
    ensures
        (*final(cells_written), success) == fill_result(cells_to_write, reply),
{
    if cells_to_write == 0 {
        *cells_written = 0;
        true
    } else {
        match reply {
            Some(r) => {
                *cells_written = r.count;
                is_success(r.status)
            },
            None => {
                *cells_written = 0;
                false
            },
        }
    }
}

/// Finishes a character fill: stores in `cells_written` how many cells the
/// native call reported and returns whether it succeeded. A failure is
/// reported, never raised, and never retried.
pub fn fill_console_output_character(
    cells_written: &mut u32,
    cells_to_write: u32,
    reply: Option<NativeReply>,
) -> (success: bool)
    ensures
        (*final(cells_written), success) == fill_result(cells_to_write, reply),
        cells_to_write == 0 ==> *final(cells_written) == 0 && success,
{
    fill_outcome(cells_written, cells_to_write, reply)
}

/// Finishes an attribute fill: stores in `cells_written` how many cells the
/// native call reported and returns whether it succeeded. A failure is
/// reported, never raised, and never retried.
pub fn fill_console_output_attribute(
    cells_written: &mut u32,
    cells_to_write: u32,
    reply: Option<NativeReply>,
) -> (success: bool)
    ensures
        (*final(cells_written), success) == fill_result(cells_to_write, reply),
        cells_to_write == 0 ==> *final(cells_written) == 0 && success,
{
    fill_outcome(cells_written, cells_to_write, reply)
}

/// Finishes a structured block write from the status of the native call.
/// Unlike the fills, a refused block write is fatal: the caller must stop.
pub fn write_console_output(status: i32) -> (r: Result<(), FatalNativeFailure>)
    ensures
        r is Ok <==> status != 0,
{
    if is_success(status) {
        Ok(())
    } else {
        Err(FatalNativeFailure {})
    }
}

} // verus!
