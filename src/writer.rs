//! Where each media item is written, whether it is written at all, and the
//! quota and byte count of a run.

use vstd::prelude::*;
use vstd::utf8::encode_utf8;

use chrono::Datelike;
use std::path::PathBuf;

use crate::error::Error;
use crate::search::Media;
use crate::text::{decimal, pad2, push_decimal, push_pad2, push_signed_decimal, signed_decimal};

verus! {

/// The layout of a creation timestamp, for chrono's parser.
pub const CREATION_TIME_FORMAT: &'static str = "%Y-%m-%dT%H:%M:%S%Z";

/// What asks the download URL for the full-resolution bytes.
pub const FULL_RESOLUTION_SUFFIX: &'static str = "=d";

/// A directory path of the standard library, carried through unread.
#[verifier::external_type_specification]
#[verifier::external_body]
pub struct ExPathBuf(PathBuf);

/// The year, month and day that parsing `s` by the layout `fmt` gives.
pub uninterp spec fn parsed_date_of(s: Seq<char>, fmt: Seq<char>) -> Option<(i32, u32, u32)>;

/// Relies on chrono's `NaiveDateTime::parse_from_str`, then the `year`,
/// `month` and `day` of the result; chrono's months run from 1 to 12 and its
/// days from 1 to 31.
#[verifier::external_body]
fn parse_date(s: &str, fmt: &str) -> (r: Option<(i32, u32, u32)>)
    ensures
        r == parsed_date_of(s@, fmt@),
        r matches Some((y, m, d)) ==> 1 <= m <= 12 && 1 <= d <= 31,
{
    chrono::NaiveDateTime::parse_from_str(s, fmt).ok().map(|t| (t.year(), t.month(), t.day()))
}

/// A hex digit in capitals, for a value below sixteen.
pub open spec fn hex_digit(d: u8) -> char {
    if d < 10 {
        ((48 + d) as u8) as char
    } else {
        ((55 + d) as u8) as char
    }
}

/// A byte left as it is by percent-encoding: an ASCII letter or digit, or one
/// of `-._~`.
pub open spec fn is_unescaped(b: u8) -> bool {
    (48 <= b <= 57) || (65 <= b <= 90) || (97 <= b <= 122) || b == 45 || b == 46 || b == 95
        || b == 126
}

/// The percent-encoding of one byte.
pub open spec fn encoded_byte(b: u8) -> Seq<char> {
    if is_unescaped(b) {
        seq![b as char]
    } else {
        seq!['%', hex_digit(b / 16), hex_digit(b % 16)]
    }
}

/// The percent-encoding of a byte string, byte by byte.
pub open spec fn percent_encoded(bytes: Seq<u8>) -> Seq<char>
    decreases bytes.len(),
{
    if bytes.len() == 0 {
        Seq::empty()
    } else {
        encoded_byte(bytes[0]) + percent_encoded(bytes.drop_first())
    }
}

/// Relies on urlencoding's `encode`: every byte of the UTF-8 text but ASCII
/// letters, digits and `-._~` becomes `%` and two capital hex digits.
#[verifier::external_body]
fn url_encode(s: &str) -> (r: String)
    ensures
        r@ == percent_encoded(encode_utf8(s@)),
{
    urlencoding::encode(s)
}

/// A percent-encoded text holds no `/`: an encoded file name never opens a
/// directory of its own.
pub proof fn lemma_encoded_has_no_separator(bytes: Seq<u8>)
    ensures
        !percent_encoded(bytes).contains('/'),
    decreases bytes.len(),
{
    if bytes.len() > 0 {
        lemma_encoded_has_no_separator(bytes.drop_first());
        let head = encoded_byte(bytes[0]);
        let tail = percent_encoded(bytes.drop_first());
        assert(!head.contains('/')) by {
            if is_unescaped(bytes[0]) {
                assert(head[0] == bytes[0] as char);
            } else {
                assert(head[0] == '%');
            }
        }
        assert forall|k: int| 0 <= k < head.len() + tail.len() implies (head + tail)[k] != '/' by {
            if k < head.len() {
                assert((head + tail)[k] == head[k]);
            } else {
                assert((head + tail)[k] == tail[k - head.len()]);
            }
        }
    }
}

/// Where an item goes under the root: year, zero-padded month, zero-padded
/// day, and the percent-encoded file name.
pub struct Destination {
    pub year: String,
    pub month: String,
    pub day: String,
    pub file_name: String,
}

/// The file name segment of an item.
pub open spec fn file_name_of(filename: Seq<char>) -> Seq<char> {
    percent_encoded(encode_utf8(filename))
}

/// A decision on an item whose destination has been looked at.
pub enum FileStep {
    /// The file is there already: nothing is downloaded, no byte counted.
    Present,
    /// Fetch this URL into the file.
    Download(String),
}

/// Persists media items under a root directory.
pub struct MediaWriter<'a> {
    pub album_dir: &'a PathBuf,
}

impl<'a> MediaWriter<'a> {
    pub fn new(album_dir: &'a PathBuf) -> (r: MediaWriter<'a>)
        ensures
            r.album_dir == album_dir,
    {
        MediaWriter { album_dir }
    }

    /// The destination of `media`, from its own creation timestamp; a
    /// timestamp that does not parse is a `SerError`.
    pub fn destination(&self, media: &Media) -> (r: Result<Destination, Error>)
        ensures
            match parsed_date_of(media.media_metadata.creation_time@, CREATION_TIME_FORMAT@) {
                Some((y, m, d)) => r matches Ok(dst) && {
                    &&& dst.year@ == signed_decimal(y as int)
                    &&& dst.month@ == pad2(m as nat)
                    &&& dst.day@ == pad2(d as nat)
                    &&& dst.file_name@ == file_name_of(media.filename@)
                    &&& !dst.file_name@.contains('/')
                },
                None => r == Err::<Destination, Error>(Error::SerError),
            },
    {
        match parse_date(media.media_metadata.creation_time.as_str(), CREATION_TIME_FORMAT) {
            Some((y, m, d)) => {
                let mut year = String::new();
                push_signed_decimal(&mut year, y);
                let mut month = String::new();
                push_pad2(&mut month, m);
                let mut day = String::new();
                push_pad2(&mut day, d);
                let file_name = url_encode(media.filename.as_str());
                proof {
                    lemma_encoded_has_no_separator(encode_utf8(media.filename@));
                }
                assert(year@ =~= signed_decimal(y as int));
                assert(month@ =~= pad2(m as nat));
                assert(day@ =~= pad2(d as nat));
                Ok(Destination { year, month, day, file_name })
            },
            None => Err(Error::SerError),
        }
    }

    /// What to do with `media` once its destination is known to exist or not.
    pub fn file_step(&self, exists: bool, media: &Media) -> (r: FileStep)
        ensures
            exists ==> r is Present,
            !exists ==> (r matches FileStep::Download(u) && u@ == media.base_url@
                + FULL_RESOLUTION_SUFFIX@),
    {
        if exists {
            FileStep::Present
        } else {
            let mut u = media.base_url.clone();
            u.append(FULL_RESOLUTION_SUFFIX);
            FileStep::Download(u)
        }
    }
}

/// How many leading items of a batch of `batch_len` are taken when `count`
/// have been taken before under `limit`.
pub open spec fn batch_taken(count: u32, limit: u32, batch_len: usize) -> int {
    if batch_len <= limit - count {
        batch_len as int
    } else {
        limit - count
    }
}

/// The items taken are the leading ones of everything that arrives: once a
/// batch is cut short, the limit has been reached and every later batch is
/// dropped whole.
pub proof fn lemma_cut_short_then_dropped(count: u32, limit: u32, first: usize, later: usize)
    requires
        count <= limit,
        batch_taken(count, limit, first) < first,
    ensures
        count + batch_taken(count, limit, first) == limit,
        batch_taken((count + batch_taken(count, limit, first)) as u32, limit, later) == 0,
{
}

/// The counters of one writing run: how many items have been taken, at most
/// the limit, and how many bytes written.
pub struct WriteSession {
    pub count: u32,
    pub limit: u32,
    pub written: u64,
}

impl WriteSession {
    /// The taken count stays within the limit.
    pub open spec fn wf(&self) -> bool {
        self.count <= self.limit
    }

    pub fn new(limit: u32) -> (r: WriteSession)
        ensures
            r.wf(),
            r.count == 0,
            r.limit == limit,
            r.written == 0,
    {
        WriteSession { count: 0, limit, written: 0 }
    }

    /// Takes the leading items of a batch of `batch_len` while the count is
    /// under the limit, and says how many; the rest of the batch is dropped.
    pub fn take_batch(&mut self, batch_len: usize) -> (r: usize)
        requires
            old(self).wf(),
        ensures
            final(self).wf(),
            r == batch_taken(old(self).count, old(self).limit, batch_len),
            final(self).count == old(self).count + r,
            final(self).limit == old(self).limit,
            final(self).written == old(self).written,
    {
        let room: u32 = self.limit - self.count;
        let taken: usize = if batch_len <= room as usize {
            batch_len
        } else {
            room as usize
        };
        self.count = self.count + taken as u32;
        taken
    }

    /// Counts the bytes of one written file.
    pub fn record(&mut self, bytes: u64)
        requires
            old(self).written + bytes <= u64::MAX,
        ensures
            final(self).written == old(self).written + bytes,
            final(self).count == old(self).count,
            final(self).limit == old(self).limit,
    {
        self.written = self.written + bytes;
    }
}

/// The progress mark of the item at `position` (from 1): `[position/limit]`,
/// with `∞` for the largest limit, which stands for none.
pub open spec fn progress_text(position: u32, limit: u32) -> Seq<char> {
    seq!['['] + decimal(position as nat) + seq!['/'] + (if limit == u32::MAX {
        seq!['\u{221E}']
    } else {
        decimal(limit as nat)
    }) + seq![']']
}

/// The progress mark of the item at `position` under `limit`.
pub fn progress_label(position: u32, limit: u32) -> (r: String)
    ensures
        r@ == progress_text(position, limit),
{
    let mut s = String::new();
    s.push('[');
    push_decimal(&mut s, position as u64);
    s.push('/');
    if limit == u32::MAX {
        s.push('\u{221E}');
    } else {
        push_decimal(&mut s, limit as u64);
    }
    s.push(']');
    assert(s@ =~= progress_text(position, limit));
    s
}

} // verus!
