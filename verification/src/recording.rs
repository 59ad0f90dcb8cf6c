use vstd::prelude::*;
use crate::config::{join_path, joined_path};
use crate::contribs::{format_utc_date, utc_date_text, UtcTime};
use crate::text::{decimal, nat_text};

verus! {

/// The samples of one recording as they arrive from the capture device.
pub struct RecordBuffer {
    pub record_buffer: Vec<i16>,
    pub pos: usize,
    pub done: bool,
}

/// The number of samples of `input` that a buffer of length `len`, filled up
/// to `pos`, still takes.
pub open spec fn samples_taken(len: int, pos: int, input_len: int) -> int {
    if input_len < len - pos {
        input_len
    } else {
        len - pos
    }
}

impl RecordBuffer {
    /// A buffer is full exactly when it is done, and not overfilled.
    pub open spec fn wf(&self) -> bool {
        &&& self.pos <= self.record_buffer@.len()
        &&& self.done <==> self.pos == self.record_buffer@.len()
    }

    /// An empty buffer for `len` samples, where `len` is at least one.
    pub fn new(len: usize) -> (res: Self)
        requires
            len > 0,
        ensures
            res.wf(),
            res.record_buffer@ == Seq::new(len as nat, |i: int| 0i16),
            res.pos == 0,
            !res.done,
    {
        let mut b: Vec<i16> = Vec::new();
        let mut i: usize = 0;
        while i < len
            invariant
                i <= len,
                b@ == Seq::new(i as nat, |j: int| 0i16),
            decreases len - i,
        {
            b.push(0);
            i = i + 1;
            assert(b@ =~= Seq::new(i as nat, |j: int| 0i16));
        }
        RecordBuffer { record_buffer: b, pos: 0, done: false }
    }

    /// Appends the samples of `input` until the buffer is full; the result
    /// tells whether it became full now, when the recording is handed on.
    pub fn callback(&mut self, input: &[i16]) -> (completed: bool)
        requires
            old(self).wf(),
        ensures
            final(self).wf(),
            old(self).done ==> *final(self) == *old(self) && !completed,
            !old(self).done ==> ({
                let k = samples_taken(
                    old(self).record_buffer@.len() as int,
                    old(self).pos as int,
                    input@.len() as int,
                );
                &&& final(self).pos == old(self).pos + k
                &&& final(self).record_buffer@ == old(self).record_buffer@.subrange(
                    0,
                    old(self).pos as int,
                ) + input@.subrange(0, k) + old(self).record_buffer@.subrange(
                    old(self).pos + k,
                    old(self).record_buffer@.len() as int,
                )
                &&& completed == final(self).done
            }),
    {
        if self.done {
            return false;
        }
        let ghost start = self.pos as int;
        let ghost orig = self.record_buffer@;
        let len = self.record_buffer.len();
        let mut i: usize = 0;
        while i < input.len()
            invariant
                self.wf(),
                !self.done,
                !old(self).done,
                start == old(self).pos,
                orig == old(self).record_buffer@,
                len == orig.len(),
                self.record_buffer@.len() == len,
                0 <= start < len,
                self.pos == start + i,
                i <= input@.len(),
                self.record_buffer@ == orig.subrange(0, start) + input@.subrange(0, i as int)
                    + orig.subrange(start + i, len as int),
            decreases input@.len() - i,
        {
            self.record_buffer[self.pos] = input[i];
            self.pos = self.pos + 1;
            i = i + 1;
            assert(self.record_buffer@ =~= orig.subrange(0, start) + input@.subrange(0, i as int)
                + orig.subrange(start + i, len as int));
            if self.pos >= len {
                self.done = true;
                return true;
            }
        }
        false
    }
}

/// The lowercase hexadecimal digit of value `d` (below 16).
pub open spec fn hex_digit(d: int) -> char {
    if d < 10 {
        (d + 48) as char
    } else {
        (d + 87) as char
    }
}

/// The last `k` hexadecimal digits of `n`, most significant first, with
/// leading zeros.
pub open spec fn hex_digits(n: nat, k: nat) -> Seq<char>
    decreases k,
{
    if k == 0 {
        Seq::empty()
    } else {
        hex_digits(n / 16, (k - 1) as nat).push(hex_digit((n % 16) as int))
    }
}

/// `hex_digits(n, k)` has `k` characters, each one of `0`-`9` or `a`-`f`.
pub proof fn lemma_hex_digits(n: nat, k: nat)
    ensures
        hex_digits(n, k).len() == k,
        forall|i: int|
            0 <= i < k ==> ('0' <= #[trigger] hex_digits(n, k)[i] <= '9') || ('a' <= hex_digits(n, k)[i]
                <= 'f'),
    decreases k,
{
    if k > 0 {
        lemma_hex_digits(n / 16, (k - 1) as nat);
    }
}

pub(crate) fn hex_digit_text(d: u64) -> (res: &'static str)
    requires
        d < 16,
    ensures
        res@ == seq![hex_digit(d as int)],
{
    if d == 0 {
        proof {
            reveal_strlit("0");
        }
        "0"
    } else if d == 1 {
        proof {
            reveal_strlit("1");
        }
        "1"
    } else if d == 2 {
        proof {
            reveal_strlit("2");
        }
        "2"
    } else if d == 3 {
        proof {
            reveal_strlit("3");
        }
        "3"
    } else if d == 4 {
        proof {
            reveal_strlit("4");
        }
        "4"
    } else if d == 5 {
        proof {
            reveal_strlit("5");
        }
        "5"
    } else if d == 6 {
        proof {
            reveal_strlit("6");
        }
        "6"
    } else if d == 7 {
        proof {
            reveal_strlit("7");
        }
        "7"
    } else if d == 8 {
        proof {
            reveal_strlit("8");
        }
        "8"
    } else if d == 9 {
        proof {
            reveal_strlit("9");
        }
        "9"
    } else if d == 10 {
        proof {
            reveal_strlit("a");
        }
        "a"
    } else if d == 11 {
        proof {
            reveal_strlit("b");
        }
        "b"
    } else if d == 12 {
        proof {
            reveal_strlit("c");
        }
        "c"
    } else if d == 13 {
        proof {
            reveal_strlit("d");
        }
        "d"
    } else if d == 14 {
        proof {
            reveal_strlit("e");
        }
        "e"
    } else {
        proof {
            reveal_strlit("f");
        }
        "f"
    }
}

fn hex_text(n: u64, k: u8) -> (res: String)
    ensures
        res@ == hex_digits(n as nat, k as nat),
    decreases k,
{
    if k == 0 {
        String::new()
    } else {
        let mut s = hex_text(n / 16, k - 1);
        s.append(hex_digit_text(n % 16));
        s
    }
}

/// The name of a recording's file: twelve hexadecimal digits drawn from
/// `random`, the day of `now`, ".wav".
pub fn generate_file_name(random: u64, now: UtcTime) -> (res: Option<String>)
    ensures
        match utc_date_text(now.secs, now.nanos) {
            Some(d) => res matches Some(n) && n@ == hex_digits(random as nat, 12) + "-"@ + d
                + ".wav"@,
            None => res is None,
        },
{
    match format_utc_date(now.secs, now.nanos) {
        None => None,
        Some(d) => {
            let mut n = hex_text(random, 12);
            n.append("-");
            n.append(d.as_str());
            n.append(".wav");
            Some(n)
        },
    }
}

/// The header line of a recordings database.
pub open spec fn database_header() -> Seq<char> {
    "wav_filename,wav_filesize,transcript\n"@
}

/// What is appended to a recordings database for one recording: the header
/// first where the database is still empty, then the file's name, its size
/// in bytes and the transcript.
pub fn database_record(database_is_empty: bool, wav_name: &str, wav_size: u64, text: &str) -> (res:
    String)
    ensures
        res@ == (if database_is_empty {
            database_header()
        } else {
            Seq::empty()
        }) + wav_name@ + ","@ + decimal(wav_size as int) + ","@ + text@ + "\n"@,
{
    let mut r = String::new();
    if database_is_empty {
        r.append("wav_filename,wav_filesize,transcript\n");
    }
    r.append(wav_name);
    r.append(",");
    let size = nat_text(wav_size);
    r.append(size.as_str());
    r.append(",");
    r.append(text);
    r.append("\n");
    proof {
        reveal_strlit("");
    }
    r
}

/// The database of the recordings kept in `unrecognized_dir`.
pub fn failures_database(unrecognized_dir: &str) -> (res: String)
    ensures
        res@ == joined_path(unrecognized_dir@, "failures.csv"@),
{
    join_path(unrecognized_dir, "failures.csv")
}

} // verus!
