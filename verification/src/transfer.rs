//! The transfer engine: the decisions of one resumable download.
//!
//! The engine does no network or file operation itself. It says where a
//! transfer starts, which bytes to ask for and how to open the partial file;
//! then it is told of each chunk that was written and answers with the
//! offset to persist and whether to go on.

use vstd::prelude::*;
use vstd::string::*;
use crate::checkpoint::{
    append_decimal, checkpoint_value, decimal_text, lemma_checkpoint_round_trip, parse_checkpoint,
};
use crate::error::DownloadError;

verus! {

/// How the partial file is opened.
#[derive(Debug, Clone, Copy, PartialEq, Eq, Structural)]
pub enum OpenMode {
    /// Nothing was written yet: the file is created, or emptied if it exists.
    Create,
    /// Part of the download is there: new bytes go behind it.
    Append,
}

/// What the engine asks for after a chunk was written.
#[derive(Debug, Clone, Copy, PartialEq, Eq, Structural)]
pub struct ChunkAction {
    /// The offset to persist as the progress marker.
    pub checkpoint: u64,
    /// Whether to stop reading from the network: a pause was requested.
    pub stop: bool,
}

/// A measurement of a running transfer.
#[derive(Debug, Clone, Copy, PartialEq, Eq, Structural)]
pub struct Progress {
    /// The speed over the last measurement window, in KiB per second.
    pub speed: u64,
    /// The part of the expected size that is written, in percent.
    pub percent: u64,
}

/// The state of one transfer.
#[derive(Debug, Clone, Copy, PartialEq, Eq, Structural)]
pub struct Transfer {
    /// The number of bytes written so far, which is also the offset of the
    /// next byte to ask for.
    pub start_byte: u64,
    /// The expected size of the download, in bytes.
    pub total_size: u64,
    /// The number of bytes written since the last measurement.
    pub window_bytes: u64,
}

/// The offset at which a transfer starts: zero where the destination has no
/// progress marker, else the number that the marker holds, if it holds one.
pub open spec fn resume_offset_of(marker: Option<Seq<char>>) -> Option<u64> {
    match marker {
        None => Some(0u64),
        Some(text) => checkpoint_value(text),
    }
}

/// The `Range` header that asks for the bytes from `start_byte` on.
pub open spec fn range_header_of(start_byte: u64) -> Seq<char> {
    "bytes="@ + decimal_text(start_byte as nat) + "-"@
}

/// The speed, in KiB per second rounded down, at which `bytes` bytes were
/// written in `millis` milliseconds. A window of no duration shows a speed
/// of zero if nothing was written in it and the largest speed otherwise.
pub open spec fn speed_of(bytes: u64, millis: u64) -> u64 {
    if millis == 0 {
        if bytes == 0 {
            0u64
        } else {
            u64::MAX
        }
    } else {
        ((bytes * 1000) / (millis * 1024)) as u64
    }
}

/// The part of `total` that `done` makes, in percent rounded down. The
/// value may exceed 100; it stops at the largest number of 64 bits. Of an
/// expected size of zero, nothing is zero percent and anything else is the
/// largest percentage.
pub open spec fn percent_of(done: u64, total: u64) -> u64 {
    if total == 0 {
        if done == 0 {
            0u64
        } else {
            u64::MAX
        }
    } else if (done * 100) / (total as int) > u64::MAX {
        u64::MAX
    } else {
        ((done * 100) / (total as int)) as u64
    }
}

/// The number of bytes in chunks of the given lengths.
pub open spec fn total_length(lengths: Seq<u64>) -> nat
    decreases lengths.len(),
{
    if lengths.len() == 0 {
        0
    } else {
        total_length(lengths.drop_last()) + lengths.last() as nat
    }
}

/// Computes the speed of a measurement window.
pub fn speed_kbps(bytes: u64, millis: u64) -> (speed: u64)
    ensures
        speed == speed_of(bytes, millis),
{
    if millis == 0 {
        if bytes == 0 {
            0
        } else {
            u64::MAX
        }
    } else {
        let scaled: u128 = (bytes as u128) * 1000;
        let span: u128 = (millis as u128) * 1024;
        let speed: u128 = scaled / span;
        assert(speed <= u64::MAX) by {
            assert(scaled / span <= scaled / 1024) by (nonlinear_arith)
                requires
                    span >= 1024,
                    scaled >= 0,
            ;
        }
        speed as u64
    }
}

/// Computes the progress of a transfer in percent.
pub fn percent_done(done: u64, total: u64) -> (percent: u64)
    ensures
        percent == percent_of(done, total),
{
    if total == 0 {
        if done == 0 {
            0
        } else {
            u64::MAX
        }
    } else {
        let scaled: u128 = (done as u128) * 100;
        let percent: u128 = scaled / (total as u128);
        if percent > 0xffff_ffff_ffff_ffffu128 {
            u64::MAX
        } else {
            percent as u64
        }
    }
}

/// Determines where a transfer starts from the text of the destination's
/// progress marker, or from its absence.
///
/// A marker that holds no number makes the attempt fail: the transfer is
/// not silently restarted from zero.
pub fn resume_offset(marker: Option<&str>) -> (r: Result<u64, DownloadError>)
    ensures
        r == match resume_offset_of(
            match marker {
                Some(text) => Some(text@),
                None => None,
            },
        ) {
            Some(offset) => Ok::<u64, DownloadError>(offset),
            None => Err::<u64, DownloadError>(DownloadError::CheckpointCorrupt),
        },
{
    match marker {
        None => Ok(0),
        Some(text) => parse_checkpoint(text),
    }
}

impl Transfer {
    /// The state of a transfer of `total_size` bytes that starts at
    /// `start_byte`.
    pub fn begin(total_size: u64, start_byte: u64) -> (transfer: Transfer)
        ensures
            transfer == (Transfer { start_byte, total_size, window_bytes: 0 }),
    {
        Transfer { start_byte, total_size, window_bytes: 0 }
    }

    /// How to open the partial file: for appending if part of the download
    /// is there, else anew.
    pub fn open_mode(&self) -> (mode: OpenMode)
        ensures
            mode == if self.start_byte > 0 {
                OpenMode::Append
            } else {
                OpenMode::Create
            },
    {
        if self.start_byte > 0 {
            OpenMode::Append
        } else {
            OpenMode::Create
        }
    }

    /// The value of the `Range` header of the request: all bytes from the
    /// current offset on.
    pub fn range_header(&self) -> (header: String)
        ensures
            header@ == range_header_of(self.start_byte),
    {
        let mut header = String::from_str("bytes=");
        append_decimal(&mut header, self.start_byte);
        header.append("-");
        header
    }

    /// Whether a chunk of `length` bytes keeps the offset within 64 bits.
    pub open spec fn accepts(self, length: u64) -> bool {
        self.start_byte + length <= u64::MAX
    }

    /// The state after a chunk of `length` bytes was written: the offset and
    /// the measurement window have advanced by the chunk's length, the
    /// window at most to the largest number of 64 bits. A chunk that is not
    /// accepted changes nothing.
    pub open spec fn after_chunk(self, length: u64) -> Transfer {
        if self.accepts(length) {
            Transfer {
                start_byte: (self.start_byte + length) as u64,
                window_bytes: if self.window_bytes + length <= u64::MAX {
                    (self.window_bytes + length) as u64
                } else {
                    u64::MAX
                },
                ..self
            }
        } else {
            self
        }
    }

    /// The state after chunks of the given lengths were written one after
    /// the other.
    pub open spec fn after_chunks(self, lengths: Seq<u64>) -> Transfer
        decreases lengths.len(),
    {
        if lengths.len() == 0 {
            self
        } else {
            self.after_chunks(lengths.drop_last()).after_chunk(lengths.last())
        }
    }

    /// Takes note of a chunk of `length` bytes that was written to the
    /// partial file, and of whether a pause has been requested meanwhile.
    ///
    /// The offset and the measurement window advance by the chunk's length.
    /// The answer holds the new offset, to be persisted as the progress
    /// marker, and tells to stop exactly when a pause was requested. A chunk
    /// that would take the offset beyond 64 bits fails the transfer and
    /// leaves the state as it was.
    pub fn on_chunk(&mut self, length: u64, paused: bool) -> (r: Result<ChunkAction, DownloadError>)
        ensures
            *final(self) == old(self).after_chunk(length),
            r == if old(self).accepts(length) {
                Ok::<ChunkAction, DownloadError>(
                    ChunkAction { checkpoint: (old(self).start_byte + length) as u64, stop: paused },
                )
            } else {
                Err::<ChunkAction, DownloadError>(DownloadError::TransferFailed)
            },
    {
        if length > u64::MAX - self.start_byte {
            return Err(DownloadError::TransferFailed);
        }
        self.start_byte = self.start_byte + length;
        self.window_bytes = if length > u64::MAX - self.window_bytes {
            u64::MAX
        } else {
            self.window_bytes + length
        };
        Ok(ChunkAction { checkpoint: self.start_byte, stop: paused })
    }

    /// The measurement of a window that lasted `elapsed_millis`
    /// milliseconds: the speed over the window and the progress in percent.
    pub open spec fn progress_of(self, elapsed_millis: u64) -> Progress {
        Progress {
            speed: speed_of(self.window_bytes, elapsed_millis),
            percent: percent_of(self.start_byte, self.total_size),
        }
    }

    /// Measures the transfer and begins a new measurement window.
    pub fn measure(&mut self, elapsed_millis: u64) -> (progress: Progress)
        ensures
            progress == old(self).progress_of(elapsed_millis),
            *final(self) == (Transfer { window_bytes: 0, ..*old(self) }),
    {
        let speed = speed_kbps(self.window_bytes, elapsed_millis);
        let percent = percent_done(self.start_byte, self.total_size);
        self.window_bytes = 0;
        Progress { speed, percent }
    }

    /// Measures the transfer if the measurement window is over.
    ///
    /// Once more than `interval_millis` milliseconds have passed since the
    /// last measurement, the speed over the window and the progress in
    /// percent are returned and a new window begins. Before that, nothing is
    /// measured and nothing changes.
    pub fn sample(&mut self, elapsed_millis: u64, interval_millis: u64) -> (r: Option<Progress>)
        ensures
            elapsed_millis > interval_millis ==> r == Some(old(self).progress_of(elapsed_millis))
                && *final(self) == (Transfer { window_bytes: 0, ..*old(self) }),
            elapsed_millis <= interval_millis ==> r is None && *final(self) == *old(self),
    {
        if elapsed_millis > interval_millis {
            Some(self.measure(elapsed_millis))
        } else {
            None
        }
    }
}

/// A transfer that resumes at a progress marker of `start` bytes and is
/// sent the rest of the `total` bytes, in chunks of any lengths, ends with
/// all `total` bytes written. No chunk on the way is refused.
pub proof fn lemma_resumed_transfer_completes(total: u64, start: u64, lengths: Seq<u64>)
    requires
        start + total_length(lengths) == total,
    ensures
        (Transfer { start_byte: start, total_size: total, window_bytes: 0 }).after_chunks(
            lengths,
        ).start_byte == total,
        (Transfer { start_byte: start, total_size: total, window_bytes: 0 }).after_chunks(
            lengths,
        ).total_size == total,
    decreases lengths.len(),
{
    if lengths.len() > 0 {
        let rest = lengths.drop_last();
        let reached = (start + total_length(rest)) as u64;
        lemma_resumed_transfer_completes(reached, start, rest);
        lemma_chunks_keep_total(
            Transfer { start_byte: start, total_size: reached, window_bytes: 0 },
            Transfer { start_byte: start, total_size: total, window_bytes: 0 },
            rest,
        );
    }
}

/// The expected size plays no part in how the offset advances.
proof fn lemma_chunks_keep_total(a: Transfer, b: Transfer, lengths: Seq<u64>)
    requires
        a.start_byte == b.start_byte,
    ensures
        a.after_chunks(lengths).start_byte == b.after_chunks(lengths).start_byte,
        a.after_chunks(lengths).total_size == a.total_size,
        b.after_chunks(lengths).total_size == b.total_size,
    decreases lengths.len(),
{
    if lengths.len() > 0 {
        lemma_chunks_keep_total(a, b, lengths.drop_last());
    }
}

/// A pause in the middle of a transfer leaves a resume point. After a chunk
/// that does not complete the download, the offset that the engine asks to
/// persist lies strictly between zero and the expected size; it is the old
/// offset plus the chunk's length, so that no byte is written twice and
/// none is left out; and a transfer that reads this offset back from the
/// marker asks the server for the bytes from exactly there on.
pub proof fn lemma_pause_leaves_resume_point(transfer: Transfer, length: u64)
    requires
        length > 0,
        transfer.start_byte + length < transfer.total_size,
    ensures
        transfer.accepts(length),
        0 < transfer.after_chunk(length).start_byte < transfer.total_size,
        transfer.after_chunk(length).start_byte == transfer.start_byte + length,
        resume_offset_of(Some(decimal_text(transfer.after_chunk(length).start_byte as nat)))
            == Some(transfer.after_chunk(length).start_byte),
{
    lemma_checkpoint_round_trip(transfer.after_chunk(length).start_byte);
}

} // verus!
