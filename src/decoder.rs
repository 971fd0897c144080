//! Decoder from the bytes of a legacy codepage to characters.
//!
//! One call of the stream's "next" is a run of steps. The decoder takes the
//! byte pushed back by the previous item, or asks for one from the source
//! ([`DecodeStep::Pull`]); it asks the codepage conversion service to convert
//! the run gathered so far ([`DecodeStep::Convert`]); when the service reports
//! no result it asks whether the run's first byte is a lead byte of the
//! codepage ([`DecodeStep::CheckLeadByte`]), and if so it asks for another
//! byte. It ends with one item or with the end of the stream.
use vstd::prelude::*;
use crate::error::DecodeError;
use crate::utf16::{
    is_lead_surrogate, is_surrogate, is_trail_surrogate, join_surrogates, pair_value,
    scalar_char,
};

verus! {

/// The longest run of bytes that is tried for one character.
pub const MAX_RUN: usize = 8;

/// What the decoder waits for.
#[derive(Clone, Copy, Debug, PartialEq, Eq, Structural)]
pub enum DecodePhase {
    /// Between items: [`ByteDecoder::start`] begins the next one.
    Idle,
    /// A byte from the source: [`ByteDecoder::feed`].
    AwaitByte,
    /// The conversion of the run: [`ByteDecoder::converted`].
    AwaitConversion,
    /// Whether the run's first byte is a lead byte: [`ByteDecoder::lead_byte`].
    AwaitLeadByte,
}

/// What the caller must do next.
#[derive(Debug)]
pub enum DecodeStep {
    /// Take the next byte from the source and hand it to `feed`.
    Pull,
    /// Convert the bytes of `run` and hand the UTF-16 units to `converted`.
    Convert,
    /// Ask whether this byte is a lead byte and hand the answer to `lead_byte`.
    CheckLeadByte(u8),
    /// The next item of the decoded stream.
    Item(Result<char, DecodeError>),
    /// The source is exhausted: the stream has no more items.
    End,
}

/// The item that a conversion result stands for, when it stands for one.
pub open spec fn item_of_units(units: Seq<u16>, default_character: u16) -> Result<char, DecodeError> {
    if units.len() == 1 {
        if is_surrogate(units[0]) {
            Err(DecodeError::InvalidSurrogate)
        } else {
            Ok((units[0] as u32) as char)
        }
    } else if units.len() == 2 && !is_surrogate(units[0]) {
        if units[0] == default_character {
            Err(DecodeError::InvalidSequence)
        } else {
            Ok((units[0] as u32) as char)
        }
    } else if units.len() == 2 && is_lead_surrogate(units[0]) && is_trail_surrogate(units[1]) {
        Ok((pair_value(units[0], units[1]) as u32) as char)
    } else {
        Err(DecodeError::InvalidSurrogate)
    }
}

/// True when a conversion result shows that the run's last byte belongs to
/// the next character: one character and the start of another came out of a
/// run of two or more bytes. The byte given back is the one read beyond the
/// character; a one-byte run gives nothing back, so every item consumes at
/// least one byte of the source.
pub open spec fn pushes_back(units: Seq<u16>, run_len: int) -> bool {
    &&& run_len >= 2
    &&& units.len() == 3 || (units.len() == 2 && !is_surrogate(units[0]))
}

/// Streaming decoder for one codepage.
pub struct ByteDecoder {
    codepage: u32,
    default_character: u16,
    pending: Option<u8>,
    run: Vec<u8>,
    phase: DecodePhase,
}

impl ByteDecoder {
    pub closed spec fn spec_codepage(&self) -> u32 {
        self.codepage
    }

    pub closed spec fn spec_default_character(&self) -> u16 {
        self.default_character
    }

    /// The byte pushed back by the previous item, to be read first.
    pub closed spec fn spec_pending(&self) -> Option<u8> {
        self.pending
    }

    /// The bytes gathered so far for the current item.
    pub closed spec fn spec_run(&self) -> Seq<u8> {
        self.run@
    }

    pub closed spec fn spec_phase(&self) -> DecodePhase {
        self.phase
    }

    /// Between items nothing is gathered; while an item is gathered no byte
    /// is pushed back, and the run never exceeds [`MAX_RUN`] bytes.
    pub open spec fn wf(&self) -> bool {
        &&& self.spec_run().len() <= MAX_RUN
        &&& self.spec_phase() == DecodePhase::Idle ==> self.spec_run().len() == 0
        &&& self.spec_phase() == DecodePhase::AwaitByte ==> self.spec_run().len() < MAX_RUN
            && self.spec_pending() is None
        &&& (self.spec_phase() == DecodePhase::AwaitConversion || self.spec_phase()
            == DecodePhase::AwaitLeadByte) ==> 1 <= self.spec_run().len()
            && self.spec_pending() is None
    }

    /// A bound on the steps left before the current item comes out: every
    /// step that does not end the item makes it smaller, so one item never
    /// takes more than `3 * MAX_RUN + 1` steps.
    pub open spec fn steps_left(&self) -> int {
        let l = self.spec_run().len() as int;
        match self.spec_phase() {
            DecodePhase::Idle => 3 * MAX_RUN + 1,
            DecodePhase::AwaitByte => 3 * (MAX_RUN - l),
            DecodePhase::AwaitConversion => 3 * (MAX_RUN - l) + 2,
            DecodePhase::AwaitLeadByte => 3 * (MAX_RUN - l) + 1,
        }
    }

    /// True when the configuration and the pushed back byte are the same and
    /// the decoder is between items.
    pub open spec fn idle_with(&self, old: &ByteDecoder, pending: Option<u8>) -> bool {
        &&& self.wf()
        &&& self.spec_phase() == DecodePhase::Idle
        &&& self.spec_pending() == pending
        &&& self.spec_codepage() == old.spec_codepage()
        &&& self.spec_default_character() == old.spec_default_character()
    }

    /// A decoder for `codepage`, whose conversion service substitutes
    /// `default_character` for what it cannot map.
    pub fn new(codepage: u32, default_character: u16) -> (r: ByteDecoder)
        ensures
            r.wf(),
            r.spec_codepage() == codepage,
            r.spec_default_character() == default_character,
            r.spec_pending() is None,
            r.spec_phase() == DecodePhase::Idle,
    {
        ByteDecoder { codepage, default_character, pending: None, run: Vec::new(), phase: DecodePhase::Idle }
    }

    /// The codepage this decoder reads.
    pub fn codepage(&self) -> (r: u32)
        ensures
            r == self.spec_codepage(),
    {
        self.codepage
    }

    /// The code unit the conversion service substitutes for what it cannot map.
    pub fn default_character(&self) -> (r: u16)
        ensures
            r == self.spec_default_character(),
    {
        self.default_character
    }

    /// What the decoder waits for.
    pub fn phase(&self) -> (r: DecodePhase)
        ensures
            r == self.spec_phase(),
    {
        self.phase
    }

    /// The bytes to hand to the conversion service.
    pub fn run(&self) -> (r: &[u8])
        ensures
            r@ == self.spec_run(),
    {
        self.run.as_slice()
    }

    /// Begins the next item. A byte pushed back by the previous item is
    /// used before the source is asked for another.
    pub fn start(&mut self) -> (r: DecodeStep)
        requires
            old(self).wf(),
            old(self).spec_phase() == DecodePhase::Idle,
        ensures
            final(self).wf(),
            final(self).spec_phase() != DecodePhase::Idle ==> 0 <= final(self).steps_left() < old(
                self,
            ).steps_left(),
            final(self).spec_codepage() == old(self).spec_codepage(),
            final(self).spec_default_character() == old(self).spec_default_character(),
            final(self).spec_pending() is None,
            old(self).spec_pending() matches Some(b) ==> (r is Convert) && final(self).spec_phase()
                == DecodePhase::AwaitConversion && final(self).spec_run() == seq![b],
            old(self).spec_pending() is None ==> (r is Pull) && final(self).spec_phase()
                == DecodePhase::AwaitByte && final(self).spec_run().len() == 0,
    {
        match self.pending.take() {
            Some(b) => {
                self.run = vec![b];
                self.phase = DecodePhase::AwaitConversion;
                DecodeStep::Convert
            },
            None => {
                self.phase = DecodePhase::AwaitByte;
                DecodeStep::Pull
            },
        }
    }

    /// Takes what the source gave: a byte, or `None` when it is exhausted.
    pub fn feed(&mut self, byte: Option<u8>) -> (r: DecodeStep)
        requires
            old(self).wf(),
            old(self).spec_phase() == DecodePhase::AwaitByte,
        ensures
            final(self).wf(),
            final(self).spec_phase() != DecodePhase::Idle ==> 0 <= final(self).steps_left() < old(
                self,
            ).steps_left(),
            final(self).spec_codepage() == old(self).spec_codepage(),
            final(self).spec_default_character() == old(self).spec_default_character(),
            final(self).spec_pending() is None,
            byte matches Some(b) ==> (r is Convert) && final(self).spec_phase()
                == DecodePhase::AwaitConversion && final(self).spec_run() == old(self).spec_run().push(b),
            (byte is None) && old(self).spec_run().len() == 0 ==> (r is End) && final(self).spec_phase() == DecodePhase::Idle,
            (byte is None) && old(self).spec_run().len() > 0 ==> r == DecodeStep::Item(
                Err(DecodeError::Truncated),
            ) && final(self).spec_phase() == DecodePhase::Idle,
    {
        match byte {
            Some(b) => {
                self.run.push(b);
                self.phase = DecodePhase::AwaitConversion;
                DecodeStep::Convert
            },
            None => {
                self.phase = DecodePhase::Idle;
                if self.run.len() == 0 {
                    DecodeStep::End
                } else {
                    self.run = Vec::new();
                    DecodeStep::Item(Err(DecodeError::Truncated))
                }
            },
        }
    }

    /// Takes the UTF-16 units that the conversion service produced for the
    /// run, strict about invalid input: none when it could not convert.
    pub fn converted(&mut self, units: &[u16]) -> (r: DecodeStep)
        requires
            old(self).wf(),
            old(self).spec_phase() == DecodePhase::AwaitConversion,
            units@.len() <= 3,
        ensures
            final(self).wf(),
            final(self).spec_phase() != DecodePhase::Idle ==> 0 <= final(self).steps_left() < old(
                self,
            ).steps_left(),
            final(self).spec_codepage() == old(self).spec_codepage(),
            final(self).spec_default_character() == old(self).spec_default_character(),
            units@.len() == 0 ==> r == DecodeStep::CheckLeadByte(old(self).spec_run()[0])
                && final(self).spec_phase() == DecodePhase::AwaitLeadByte && final(self).spec_run() == old(self).spec_run() && final(self).spec_pending() is None,
            units@.len() > 0 ==> r == DecodeStep::Item(
                item_of_units(units@, old(self).spec_default_character()),
            ) && final(self).idle_with(
                old(self),
                if pushes_back(units@, old(self).spec_run().len() as int) {
                    Some(old(self).spec_run().last())
                } else {
                    None
                },
            ),
    {
        let n = units.len();
        if n == 0 {
            self.phase = DecodePhase::AwaitLeadByte;
            return DecodeStep::CheckLeadByte(self.run[0]);
        }
        let last = self.run[self.run.len() - 1];
        let multi_byte = self.run.len() >= 2;
        self.run = Vec::new();
        self.phase = DecodePhase::Idle;
        let u0 = units[0];
        let single = u0 < 0xD800 || u0 > 0xDFFF;
        if n == 1 {
            match scalar_char(u0 as u32) {
                Some(c) => {
                    proof {
                        vstd::utf8::char_u32_cast(c, u0 as u32);
                    }
                    DecodeStep::Item(Ok(c))
                },
                None => DecodeStep::Item(Err(DecodeError::InvalidSurrogate)),
            }
        } else if n == 2 && single {
            if multi_byte {
                self.pending = Some(last);
            }
            if u0 == self.default_character {
                DecodeStep::Item(Err(DecodeError::InvalidSequence))
            } else {
                match scalar_char(u0 as u32) {
                    Some(c) => {
                    proof {
                        vstd::utf8::char_u32_cast(c, u0 as u32);
                    }
                    DecodeStep::Item(Ok(c))
                },
                    None => DecodeStep::Item(Err(DecodeError::InvalidSurrogate)),
                }
            }
        } else if n == 2 && u0 <= 0xDBFF && 0xDC00 <= units[1] && units[1] <= 0xDFFF {
            let c = join_surrogates(u0, units[1]);
            proof {
                vstd::utf8::char_u32_cast(c, pair_value(u0, units[1]) as u32);
            }
            DecodeStep::Item(Ok(c))
        } else {
            if n == 3 && multi_byte {
                self.pending = Some(last);
            }
            DecodeStep::Item(Err(DecodeError::InvalidSurrogate))
        }
    }

    /// Takes whether the run's first byte is a lead byte of the codepage.
    /// Only then may the run grow, up to [`MAX_RUN`] bytes.
    pub fn lead_byte(&mut self, is_lead: bool) -> (r: DecodeStep)
        requires
            old(self).wf(),
            old(self).spec_phase() == DecodePhase::AwaitLeadByte,
        ensures
            final(self).wf(),
            final(self).spec_phase() != DecodePhase::Idle ==> 0 <= final(self).steps_left() < old(
                self,
            ).steps_left(),
            final(self).spec_codepage() == old(self).spec_codepage(),
            final(self).spec_default_character() == old(self).spec_default_character(),
            final(self).spec_pending() is None,
            !is_lead ==> r == DecodeStep::Item(Err(DecodeError::ConversionFailed))
                && final(self).spec_phase() == DecodePhase::Idle,
            is_lead && old(self).spec_run().len() < MAX_RUN ==> (r is Pull) && final(self).spec_phase() == DecodePhase::AwaitByte && final(self).spec_run() == old(self).spec_run(),
            is_lead && old(self).spec_run().len() == MAX_RUN ==> r == DecodeStep::Item(
                Err(DecodeError::TooLong),
            ) && final(self).spec_phase() == DecodePhase::Idle,
    {
        if !is_lead {
            self.run = Vec::new();
            self.phase = DecodePhase::Idle;
            DecodeStep::Item(Err(DecodeError::ConversionFailed))
        } else if self.run.len() < MAX_RUN {
            self.phase = DecodePhase::AwaitByte;
            DecodeStep::Pull
        } else {
            self.run = Vec::new();
            self.phase = DecodePhase::Idle;
            DecodeStep::Item(Err(DecodeError::TooLong))
        }
    }
}

} // verus!
