//! The shutdown sequence: the bytes written to the child's input once the
//! termination signal arrives.

use vstd::prelude::*;

verus! {

/// The byte that ends a line on the child's input.
pub const LINE_TERMINATOR: u8 = 10;

/// What to write to the child when shutting it down. Fixed at startup.
#[derive(Clone, Debug)]
pub struct ShutdownConfig {
    /// The command text, if any; `None` means a clean shutdown without a command.
    pub command: Option<Vec<u8>>,
    /// Write a line terminator before the command.
    pub newline_before: bool,
    /// Write a line terminator after the command.
    pub newline_after: bool,
}

/// Mathematical model of a [`ShutdownConfig`].
pub struct ShutdownConfigView {
    pub command: Option<Seq<u8>>,
    pub newline_before: bool,
    pub newline_after: bool,
}

impl View for ShutdownConfig {
    type V = ShutdownConfigView;

    open spec fn view(&self) -> ShutdownConfigView {
        ShutdownConfigView {
            command: match self.command {
                Some(c) => Some(c@),
                None => None,
            },
            newline_before: self.newline_before,
            newline_after: self.newline_after,
        }
    }
}

/// A single line terminator when `enabled`, nothing otherwise.
pub open spec fn newline_if(enabled: bool) -> Seq<u8> {
    if enabled {
        seq![LINE_TERMINATOR]
    } else {
        Seq::empty()
    }
}

/// The command's bytes, or nothing when no command is configured.
pub open spec fn command_bytes(command: Option<Seq<u8>>) -> Seq<u8> {
    match command {
        Some(c) => c,
        None => Seq::empty(),
    }
}

/// The whole shutdown sequence, in order: a terminator iff `newline_before`,
/// the command iff present, a terminator iff `newline_after`.
pub open spec fn shutdown_bytes(c: ShutdownConfigView) -> Seq<u8> {
    newline_if(c.newline_before) + command_bytes(c.command) + newline_if(c.newline_after)
}

impl ShutdownConfig {
    pub fn new(command: Option<Vec<u8>>, newline_before: bool, newline_after: bool) -> (r: Self)
        ensures
            r.command == command,
            r.newline_before == newline_before,
            r.newline_after == newline_after,
    {
        ShutdownConfig { command, newline_before, newline_after }
    }

    /// The bytes to write to the child on shutdown.
    pub fn shutdown_sequence(&self) -> (r: Vec<u8>)
        ensures
            r@ == shutdown_bytes(self@),
    {
        let mut out: Vec<u8> = Vec::new();
        if self.newline_before {
            out.push(LINE_TERMINATOR);
        }
        assert(out@ == newline_if(self.newline_before));
        if let Some(cmd) = &self.command {
            let ghost start = out@;
            let mut i: usize = 0;
            while i < cmd.len()
                invariant
                    i <= cmd@.len(),
                    out@ == start + cmd@.subrange(0, i as int),
                decreases cmd@.len() - i,
            {
                out.push(cmd[i]);
                i = i + 1;
                assert(out@ =~= start + cmd@.subrange(0, i as int));
            }
            assert(cmd@.subrange(0, cmd@.len() as int) =~= cmd@);
        }
        assert(out@ =~= newline_if(self.newline_before) + command_bytes(self@.command));
        if self.newline_after {
            out.push(LINE_TERMINATOR);
        }
        assert(out@ =~= shutdown_bytes(self@));
        out
    }
}

} // verus!
