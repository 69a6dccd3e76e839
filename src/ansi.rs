use vstd::prelude::*;
use vstd::utf8::encode_utf8;

verus! {

/// What an ANSI screen manager holds: the alternate-screen flag and the
/// bytes written since the sink was last flushed.
pub struct AnsiScreenState {
    pub is_alternate_screen: bool,
    pub pending: Seq<u8>,
}

impl AnsiScreenState {
    /// The state after the alternate-screen flag is set to `is_alternate_screen`.
    pub open spec fn toggled(self, is_alternate_screen: bool) -> AnsiScreenState {
        AnsiScreenState { is_alternate_screen, pending: self.pending }
    }
}

/// Screen manager for terminals that take ANSI escape sequences: a pass-
/// through to a byte sink. Bytes written wait here until a flush hands them
/// to the sink; a string write flushes at once.
pub struct AnsiScreenManager {
    pub is_alternate_screen: bool,
    output: Vec<u8>,
}

impl View for AnsiScreenManager {
    type V = AnsiScreenState;

    closed spec fn view(&self) -> AnsiScreenState {
        AnsiScreenState { is_alternate_screen: self.is_alternate_screen, pending: self.output@ }
    }
}

impl AnsiScreenManager {
    /// A manager on the primary screen with nothing written.
    pub fn new() -> (r: Self)
        ensures
            !r@.is_alternate_screen,
            r@.pending == Seq::<u8>::empty(),
    {
        AnsiScreenManager { is_alternate_screen: false, output: Vec::new() }
    }

    /// Records whether the alternate screen is in use. No bytes are written:
    /// switching screens is the escape-sequence emitter's work.
    pub fn toggle_is_alternate_screen(&mut self, is_alternate_screen: bool)
        ensures
            final(self)@ == old(self)@.toggled(is_alternate_screen),
    {
        self.is_alternate_screen = is_alternate_screen;
    }

    /// Takes `buf` for the sink, all of it, and returns its length.
    pub fn write(&mut self, buf: &[u8]) -> (r: usize)
        ensures
            r == buf@.len(),
            final(self)@.is_alternate_screen == old(self)@.is_alternate_screen,
            final(self)@.pending == old(self)@.pending + buf@,
    {
        self.output.extend_from_slice(buf);
        proof {
            assert(self.output@ =~= old(self).output@ + buf@);
        }
        buf.len()
    }

    /// Hands every pending byte to the sink: returns them, in the order in
    /// which they were written, and keeps none.
    pub fn flush(&mut self) -> (r: Vec<u8>)
        ensures
            r@ == old(self)@.pending,
            final(self)@.is_alternate_screen == old(self)@.is_alternate_screen,
            final(self)@.pending == Seq::<u8>::empty(),
    {
        let mut taken: Vec<u8> = Vec::new();
        std::mem::swap(&mut self.output, &mut taken);
        taken
    }

    /// Writes the UTF-8 bytes of `string` and flushes at once: returns every
    /// pending byte, the string's last.
    pub fn write_str(&mut self, string: &str) -> (r: Vec<u8>)
        ensures
            r@ == old(self)@.pending + encode_utf8(string@),
            final(self)@.is_alternate_screen == old(self)@.is_alternate_screen,
            final(self)@.pending == Seq::<u8>::empty(),
    {
        self.write(string.as_bytes());
        self.flush()
    }

    /// Writes the UTF-8 bytes of `string` and flushes at once: returns every
    /// pending byte, the string's last.
    pub fn write_string(&mut self, string: String) -> (r: Vec<u8>)
        ensures
            r@ == old(self)@.pending + encode_utf8(string@),
            final(self)@.is_alternate_screen == old(self)@.is_alternate_screen,
            final(self)@.pending == Seq::<u8>::empty(),
    {
        self.write_str(string.as_str())
    }
}

/// Setting the alternate-screen flag twice to the same value is the same as
/// setting it once, and leaves the flag at that value.
pub proof fn lemma_toggle_idempotent(state: AnsiScreenState, is_alternate_screen: bool)
    ensures
        state.toggled(is_alternate_screen).toggled(is_alternate_screen) == state.toggled(
            is_alternate_screen,
        ),
        state.toggled(is_alternate_screen).toggled(is_alternate_screen).is_alternate_screen
            == is_alternate_screen,
{
}

} // verus!
