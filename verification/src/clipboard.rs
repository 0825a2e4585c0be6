//! Clipboard sharing: change detection, the payload cache, and file drops.
use vstd::prelude::*;
use vstd::string::*;
use crate::crypto::{sha256, sha256_digest};
use crate::platform::{ClipboardHandler, PlatformError, platform_error_message};
use crate::protocol::{ClipboardFormat, ControlMessage, FormatView};

verus! {

#[verifier::external_type_specification]
#[verifier::external_body]
pub struct ExIoError(std::io::Error);

#[derive(Debug)]
pub enum ClipboardError {
    Platform(String),
    Io(std::io::Error),
    ChecksumMismatch,
}

/// Calls `ToString::to_string` on an I/O error. Nothing is claimed of the text: it is the
/// error's own rendering, which may carry the operating system's message.
#[verifier::external_body]
fn io_error_text(e: &std::io::Error) -> String {
    e.to_string()
}

/// The rendering of a clipboard error that is not an I/O error.
pub open spec fn clipboard_error_message(e: ClipboardError) -> Seq<char>
    recommends
        !(e is Io),
{
    match e {
        ClipboardError::Platform(m) => "Platform clipboard error: "@ + m@,
        ClipboardError::ChecksumMismatch => "Checksum mismatch on file transfer"@,
        ClipboardError::Io(_) => Seq::empty(),
    }
}

impl ClipboardError {
    /// The human-readable rendering of this error; an I/O error is rendered as
    /// `I/O error: ` followed by the error's own text.
    pub fn message(&self) -> (r: String)
        ensures
            !(self is Io) ==> r@ == clipboard_error_message(*self),
            self is Io ==> r@.len() >= 11 && r@.subrange(0, 11) == "I/O error: "@,
    {
        proof {
            reveal_strlit("I/O error: ");
        }
        match self {
            ClipboardError::Platform(m) => {
                let mut text = String::from_str("Platform clipboard error: ");
                text.append(m.as_str());
                text
            },
            ClipboardError::Io(e) => {
                let mut text = String::from_str("I/O error: ");
                let detail = io_error_text(e);
                text.append(detail.as_str());
                assert(text@.subrange(0, 11) =~= "I/O error: "@);
                text
            },
            ClipboardError::ChecksumMismatch => String::from_str("Checksum mismatch on file transfer"),
        }
    }
}

/// The text that `String::from_utf8_lossy` makes of `bytes`.
pub uninterp spec fn utf8_lossy(bytes: Seq<u8>) -> Seq<char>;

/// Calls `String::from_utf8_lossy`. Trusted: the result is a function of the bytes,
/// and it is their decoding when they are valid UTF-8 (invalid sequences are
/// replaced by U+FFFD, which is not stated here).
#[verifier::external_body]
fn string_from_utf8_lossy(bytes: &[u8]) -> (r: String)
    ensures
        r@ == utf8_lossy(bytes@),
        vstd::utf8::valid_utf8(bytes@) ==> r@ == vstd::utf8::decode_utf8(bytes@),
{
    String::from_utf8_lossy(bytes).into_owned()
}

/// A cached clipboard payload seen as (digest, format, bytes).
pub type CacheEntryView = (Seq<u8>, FormatView, Seq<u8>);

/// The payload cached under `key`: the latest entry with that digest.
pub open spec fn cache_lookup(entries: Seq<CacheEntryView>, key: Seq<u8>) -> Option<(FormatView, Seq<u8>)>
    decreases entries.len(),
{
    if entries.len() == 0 {
        None
    } else if entries.last().0 == key {
        Some((entries.last().1, entries.last().2))
    } else {
        cache_lookup(entries.drop_last(), key)
    }
}

/// The index of the latest entry with digest `key`, if any.
pub open spec fn cache_index(entries: Seq<CacheEntryView>, key: Seq<u8>) -> Option<int>
    decreases entries.len(),
{
    if entries.len() == 0 {
        None
    } else if entries.last().0 == key {
        Some(entries.len() - 1)
    } else {
        cache_index(entries.drop_last(), key)
    }
}

/// The cache seen as a map from digests to payloads.
pub open spec fn cache_map(entries: Seq<CacheEntryView>) -> Map<Seq<u8>, (FormatView, Seq<u8>)> {
    Map::new(|k: Seq<u8>| cache_lookup(entries, k) is Some, |k: Seq<u8>| cache_lookup(entries, k).unwrap())
}

proof fn lemma_cache_index_lookup(entries: Seq<CacheEntryView>, key: Seq<u8>)
    ensures
        cache_index(entries, key) matches Some(i) ==> 0 <= i < entries.len() && entries[i].0 == key
            && cache_lookup(entries, key) == Some((entries[i].1, entries[i].2))
            && forall|j: int| i < j < entries.len() ==> #[trigger] entries[j].0 != key,
        cache_index(entries, key) is None ==> cache_lookup(entries, key) is None
            && forall|j: int| 0 <= j < entries.len() ==> #[trigger] entries[j].0 != key,
    decreases entries.len(),
{
    if entries.len() > 0 {
        let rest = entries.drop_last();
        lemma_cache_index_lookup(rest, key);
        assert forall|j: int| 0 <= j < rest.len() implies #[trigger] rest[j] == entries[j] by {}
        if entries.last().0 != key {
            assert forall|j: int| 0 <= j < entries.len() && (cache_index(entries, key) matches Some(i) ==> i < j)
                implies #[trigger] entries[j].0 != key by {
                if j < rest.len() {
                    assert(rest[j] == entries[j]);
                }
            }
        }
    }
}

/// Looking up any digest after pushing an entry.
proof fn lemma_cache_push(entries: Seq<CacheEntryView>, e: CacheEntryView, k: Seq<u8>)
    ensures
        cache_lookup(entries.push(e), k) == if e.0 == k { Some((e.1, e.2)) } else { cache_lookup(entries, k) },
{
    assert(entries.push(e).drop_last() == entries);
}

/// Replacing the latest entry of its digest by an entry with the same digest.
proof fn lemma_cache_update(entries: Seq<CacheEntryView>, i: int, e: CacheEntryView, k: Seq<u8>)
    requires
        cache_index(entries, e.0) == Some(i),
    ensures
        cache_lookup(entries.update(i, e), k) == if e.0 == k { Some((e.1, e.2)) } else { cache_lookup(entries, k) },
    decreases entries.len(),
{
    lemma_cache_index_lookup(entries, e.0);
    let u = entries.update(i, e);
    if i == entries.len() - 1 {
        assert(u.drop_last() == entries.drop_last());
    } else {
        assert(u.drop_last() == entries.drop_last().update(i, e));
        lemma_cache_update(entries.drop_last(), i, e, k);
    }
}

struct CachedPayload {
    sha256: [u8; 32],
    format: ClipboardFormat,
    data: Vec<u8>,
}

spec fn entry_view(e: CachedPayload) -> CacheEntryView {
    (e.sha256@, e.format@, e.data@)
}

/// The outcome of reading one kind of clipboard content: the bytes to share, if any.
pub open spec fn text_read_bytes(read: Result<Option<String>, PlatformError>) -> Option<Seq<u8>> {
    match read {
        Ok(Some(t)) => Some(vstd::utf8::encode_utf8(t@)),
        _ => None,
    }
}

/// The outcome of reading an image: its PNG bytes, if any.
pub open spec fn image_read_bytes(read: Result<Option<Vec<u8>>, PlatformError>) -> Option<Seq<u8>> {
    match read {
        Ok(Some(b)) => Some(b@),
        _ => None,
    }
}

/// `msg` announces a payload of `format` holding `data`, by size and digest.
pub open spec fn is_notify_for(msg: ControlMessage, format: FormatView, data: Seq<u8>) -> bool {
    msg matches ControlMessage::ClipboardNotify { format: f, data_size, sha256: d }
        && f@ == format && data_size as int == data.len() && d@ == sha256(data)
}

/// The text written to the native clipboard for a text payload: its bytes decoded as
/// UTF-8, invalid sequences replaced.
pub fn payload_text(data: &[u8]) -> (r: String)
    ensures
        r@ == utf8_lossy(data@),
        vstd::utf8::valid_utf8(data@) ==> r@ == vstd::utf8::decode_utf8(data@),
{
    string_from_utf8_lossy(data)
}

/// What applying a payload answers, given the native clipboard's answer to the write:
/// success, or its error rendered as a clipboard platform error.
pub fn write_outcome(written: Result<(), PlatformError>) -> (r: Result<(), ClipboardError>)
    ensures
        written is Ok ==> r is Ok,
        written matches Err(e) ==> (r matches Err(ClipboardError::Platform(m)) && m@ == platform_error_message(e)),
{
    match written {
        Ok(()) => Ok(()),
        Err(e) => Err(ClipboardError::Platform(e.message())),
    }
}

/// Whether reading the clipboard's text found text to share.
pub fn holds_text(read: &Result<Option<String>, PlatformError>) -> (r: bool)
    ensures
        r == (text_read_bytes(*read) is Some),
{
    match read {
        Ok(Some(_)) => true,
        _ => false,
    }
}

/// What applying a payload asks the native clipboard to write.
#[derive(Debug)]
pub enum ClipboardWrite {
    Text(String),
    Image(Vec<u8>),
}

/// The write that applying a payload of `format` holding `data` asks for: a text
/// payload as its bytes decoded as UTF-8 (invalid sequences replaced), a PNG payload as
/// its bytes, and nothing for the other formats.
pub fn write_request(format: &ClipboardFormat, data: &[u8]) -> (r: Option<ClipboardWrite>)
    ensures
        format@ is PlainText ==> (r matches Some(ClipboardWrite::Text(t)) && t@ == utf8_lossy(data@)
            && (vstd::utf8::valid_utf8(data@) ==> t@ == vstd::utf8::decode_utf8(data@))),
        format@ is PngImage ==> (r matches Some(ClipboardWrite::Image(b)) && b@ == data@),
        !(format@ is PlainText || format@ is PngImage) ==> r is None,
{
    match format {
        ClipboardFormat::PlainText => Some(ClipboardWrite::Text(payload_text(data))),
        ClipboardFormat::PngImage => Some(ClipboardWrite::Image(vstd::slice::slice_to_vec(data))),
        _ => None,
    }
}

/// What the last poll of the native clipboard saw.
pub enum PollRecord {
    /// The clipboard was not polled yet
    NotPolled,
    /// The change counter read `count` was the one seen last, so nothing was read
    Unchanged { count: u64 },
    /// The change counter read `count` had moved. Reading the text found `text` (its
    /// UTF-8 bytes; `None` when there was no text or the read failed); where the image
    /// was read, reading it found `image` (its bytes, or `None`).
    Read { count: u64, text: Option<Seq<u8>>, image: Option<Option<Seq<u8>>> },
}

/// What reading the image found, where it was read.
pub open spec fn image_record(image: Option<Result<Option<Vec<u8>>, PlatformError>>) -> Option<Option<Seq<u8>>> {
    match image {
        Some(read) => Some(image_read_bytes(read)),
        None => None,
    }
}

/// A write asked of the native clipboard.
pub enum WriteView {
    Text(Seq<char>),
    Image(Seq<u8>),
}

/// The write that `w` asks for.
pub open spec fn write_view(w: ClipboardWrite) -> WriteView {
    match w {
        ClipboardWrite::Text(t) => WriteView::Text(t@),
        ClipboardWrite::Image(b) => WriteView::Image(b@),
    }
}

/// What the last write to the native clipboard asked for and got.
pub enum WriteRecord {
    /// Nothing was written yet
    NotWritten,
    /// `request` was asked for; the clipboard `accepted` it or not, and after an accepted
    /// write its change counter read `count_after`
    Written { request: WriteView, accepted: bool, count_after: u64 },
}

pub struct ClipboardService {
    handler: Box<dyn ClipboardHandler>,
    last_change_count: u64,
    cached_payloads: Vec<CachedPayload>,
    last_poll: Ghost<PollRecord>,
    last_write: Ghost<WriteRecord>,
}

impl ClipboardService {
    /// Like the digest-keyed map it stands for, the cache holds each digest at most once.
    #[verifier::type_invariant]
    spec fn digests_distinct(self) -> bool {
        forall|i: int, j: int|
            0 <= i < j < self.cached_payloads@.len()
                ==> #[trigger] self.cached_payloads@[i].sha256@ != #[trigger] self.cached_payloads@[j].sha256@
    }

    /// The cached payloads, oldest first.
    pub closed spec fn entries(&self) -> Seq<CacheEntryView> {
        self.cached_payloads@.map_values(|e: CachedPayload| entry_view(e))
    }

    /// The cache seen as a map from digests to payloads.
    pub open spec fn cache(&self) -> Map<Seq<u8>, (FormatView, Seq<u8>)> {
        cache_map(self.entries())
    }

    /// The clipboard change counter seen last.
    pub closed spec fn last_change_count(&self) -> u64 {
        self.last_change_count
    }

    /// What the last poll of the native clipboard saw.
    pub closed spec fn last_poll(&self) -> PollRecord {
        self.last_poll@
    }

    /// What the last write to the native clipboard asked for and got.
    pub closed spec fn last_write(&self) -> WriteRecord {
        self.last_write@
    }

    pub fn new(handler: Box<dyn ClipboardHandler>) -> (r: Self)
        ensures
            r.entries().len() == 0,
            r.cache() == Map::<Seq<u8>, (FormatView, Seq<u8>)>::empty(),
    {
        let initial_count = handler.get_change_count();
        let r = ClipboardService {
            handler,
            last_change_count: initial_count,
            cached_payloads: Vec::new(),
            last_poll: Ghost(PollRecord::NotPolled),
            last_write: Ghost(WriteRecord::NotWritten),
        };
        assert(r.cache() =~= Map::<Seq<u8>, (FormatView, Seq<u8>)>::empty());
        r
    }

    fn find_entry(&self, key: &[u8; 32]) -> (r: Option<usize>)
        ensures
            r matches Some(i) ==> cache_index(self.entries(), key@) == Some(i as int),
            r is None ==> cache_index(self.entries(), key@) is None,
    {
        let ghost entries = self.entries();
        let mut i: usize = self.cached_payloads.len();
        assert(entries.subrange(0, i as int) == entries);
        while i > 0
            invariant
                i <= entries.len(),
                entries == self.entries(),
                cache_index(entries, key@) == cache_index(entries.subrange(0, i as int), key@),
            decreases i,
        {
            let e = &self.cached_payloads[i - 1];
            let mut same = true;
            let mut b: usize = 0;
            while b < 32
                invariant
                    b <= 32,
                    same <==> forall|k: int| 0 <= k < b ==> e.sha256@[k] == key@[k],
                decreases 32 - b,
            {
                if e.sha256[b] != key[b] {
                    same = false;
                }
                b = b + 1;
            }
            assert(same <==> e.sha256@ =~= key@);
            assert(entry_view(self.cached_payloads@[i - 1]) == entries[i - 1]);
            let ghost prefix = entries.subrange(0, i as int);
            assert(prefix.last() == entries[i - 1]);
            assert(prefix.drop_last() == entries.subrange(0, i - 1));
            if same {
                return Some(i - 1);
            }
            i = i - 1;
        }
        None
    }

    /// Cache `data` under its digest and announce it.
    fn record_payload(&mut self, format: ClipboardFormat, data: Vec<u8>) -> (r: ControlMessage)
        ensures
            final(self).last_poll() == old(self).last_poll(),
            final(self).last_write() == old(self).last_write(),
            is_notify_for(r, format@, data@),
            final(self).cache() == old(self).cache().insert(sha256(data@), (format@, data@)),
            final(self).last_change_count() == old(self).last_change_count(),
    {
        let sha256 = sha256_digest(data.as_slice());
        let size = data.len();
        let announced = format.clone();
        let entry = CachedPayload { sha256, format, data };
        let ghost ev = entry_view(entry);
        let ghost old_entries = self.entries();
        let found = self.find_entry(&sha256);
        proof {
            use_type_invariant(&*self);
            lemma_cache_index_lookup(old_entries, sha256@);
            assert forall|j: int| 0 <= j < self.cached_payloads@.len()
                implies #[trigger] self.cached_payloads@[j].sha256@ == old_entries[j].0 by {}
        }
        let mut payloads: Vec<CachedPayload> = Vec::new();
        std::mem::swap(&mut payloads, &mut self.cached_payloads);
        let ghost before = payloads@;
        match found {
            Some(i) => {
                proof {
                    assert(before[i as int].sha256@ == sha256@);
                    assert forall|j: int| 0 <= j < before.len() && j != i
                        implies #[trigger] before[j].sha256@ != sha256@ by {
                        if j < i {
                            assert(before[j].sha256@ != before[i as int].sha256@);
                        }
                    }
                }
                payloads.set(i, entry);
                proof {
                    assert forall|a: int, b: int| 0 <= a < b < payloads@.len()
                        implies #[trigger] payloads@[a].sha256@ != #[trigger] payloads@[b].sha256@ by {
                        if a != i && b != i {
                            assert(before[a].sha256@ != before[b].sha256@);
                        }
                    }
                }
                self.cached_payloads = payloads;
                proof {
                    assert(self.entries() =~= old_entries.update(i as int, ev));
                    assert forall|k: Seq<u8>| #[trigger] cache_lookup(self.entries(), k)
                        == if ev.0 == k { Some((ev.1, ev.2)) } else { cache_lookup(old_entries, k) } by {
                        lemma_cache_update(old_entries, i as int, ev, k);
                    }
                }
            },
            None => {
                proof {
                    assert forall|j: int| 0 <= j < before.len()
                        implies #[trigger] before[j].sha256@ != sha256@ by {}
                }
                payloads.push(entry);
                proof {
                    assert forall|a: int, b: int| 0 <= a < b < payloads@.len()
                        implies #[trigger] payloads@[a].sha256@ != #[trigger] payloads@[b].sha256@ by {
                        if b < before.len() {
                            assert(before[a].sha256@ != before[b].sha256@);
                        }
                    }
                }
                self.cached_payloads = payloads;
                proof {
                    assert(self.entries() =~= old_entries.push(ev));
                    assert forall|k: Seq<u8>| #[trigger] cache_lookup(self.entries(), k)
                        == if ev.0 == k { Some((ev.1, ev.2)) } else { cache_lookup(old_entries, k) } by {
                        lemma_cache_push(old_entries, ev, k);
                    }
                }
            },
        }
        assert(self.cache() =~= old(self).cache().insert(sha256@, (ev.1, ev.2)));
        ControlMessage::ClipboardNotify { format: announced, data_size: size, sha256 }
    }

    /// Take note of the clipboard change counter; true when it moved since last seen.
    pub fn note_change_count(&mut self, current_count: u64) -> (r: bool)
        ensures
            final(self).last_poll() == old(self).last_poll(),
            final(self).last_write() == old(self).last_write(),
            r <==> current_count != old(self).last_change_count(),
            final(self).last_change_count() == current_count,
            final(self).cache() == old(self).cache(),
    {
        proof { use_type_invariant(&*self); }
        if current_count == self.last_change_count {
            return false;
        }
        self.last_change_count = current_count;
        true
    }

    /// Share the result of reading the clipboard's text, if it holds text.
    pub fn absorb_text(&mut self, read: Result<Option<String>, PlatformError>) -> (r: Option<ControlMessage>)
        ensures
            final(self).last_poll() == old(self).last_poll(),
            final(self).last_write() == old(self).last_write(),
            final(self).last_change_count() == old(self).last_change_count(),
            match text_read_bytes(read) {
                Some(data) => (r matches Some(m) && is_notify_for(m, FormatView::PlainText, data))
                    && final(self).cache() == old(self).cache().insert(sha256(data), (FormatView::PlainText, data)),
                None => r is None && final(self).cache() == old(self).cache(),
            },
    {
        match read {
            Ok(Some(text)) => {
                let bytes = vstd::slice::slice_to_vec(text.as_str().as_bytes());
                Some(self.record_payload(ClipboardFormat::PlainText, bytes))
            },
            _ => None,
        }
    }

    /// Share the result of reading the clipboard's image, if it holds one.
    pub fn absorb_image(&mut self, read: Result<Option<Vec<u8>>, PlatformError>) -> (r: Option<ControlMessage>)
        ensures
            final(self).last_poll() == old(self).last_poll(),
            final(self).last_write() == old(self).last_write(),
            final(self).last_change_count() == old(self).last_change_count(),
            match image_read_bytes(read) {
                Some(data) => (r matches Some(m) && is_notify_for(m, FormatView::PngImage, data))
                    && final(self).cache() == old(self).cache().insert(sha256(data), (FormatView::PngImage, data)),
                None => r is None && final(self).cache() == old(self).cache(),
            },
    {
        match read {
            Ok(Some(png_bytes)) => Some(self.record_payload(ClipboardFormat::PngImage, png_bytes)),
            _ => None,
        }
    }

    /// Share what reading the clipboard found: its text when it holds text; otherwise its
    /// image, where the image was read (`image` is `None` when it was not).
    pub fn absorb_reads(
        &mut self,
        text: Result<Option<String>, PlatformError>,
        image: Option<Result<Option<Vec<u8>>, PlatformError>>,
    ) -> (r: Option<ControlMessage>)
        ensures
            final(self).last_poll() == old(self).last_poll(),
            final(self).last_write() == old(self).last_write(),
            final(self).last_change_count() == old(self).last_change_count(),
            match text_read_bytes(text) {
                Some(data) => (r matches Some(m) && is_notify_for(m, FormatView::PlainText, data))
                    && final(self).cache() == old(self).cache().insert(sha256(data), (FormatView::PlainText, data)),
                None => match image {
                    Some(read) => match image_read_bytes(read) {
                        Some(data) => (r matches Some(m) && is_notify_for(m, FormatView::PngImage, data))
                            && final(self).cache() == old(self).cache().insert(sha256(data), (FormatView::PngImage, data)),
                        None => r is None && final(self).cache() == old(self).cache(),
                    },
                    None => r is None && final(self).cache() == old(self).cache(),
                },
            },
    {
        let notified = self.absorb_text(text);
        if notified.is_some() {
            return notified;
        }
        match image {
            Some(read) => self.absorb_image(read),
            None => None,
        }
    }

    /// Check if the local clipboard has changed; returns the notification to send if so.
    /// Text is preferred; the image is read only when the clipboard holds no text.
    pub fn poll_changes(&mut self) -> (r: Option<ControlMessage>)
        ensures
            r is None ==> final(self).cache() == old(self).cache(),
            r matches Some(m) ==> exists|f: FormatView, data: Seq<u8>|
                (f == FormatView::PlainText || f == FormatView::PngImage)
                && is_notify_for(m, f, data)
                && #[trigger] final(self).cache() == old(self).cache().insert(sha256(data), (f, data)),
            r is Some ==> final(self).last_change_count() != old(self).last_change_count(),
            r matches Some(ControlMessage::ClipboardNotify { format, data_size, sha256: d })
                ==> final(self).cache().contains_key(d@) && final(self).cache()[d@].0 == format@
                    && final(self).cache()[d@].1.len() == data_size && sha256(final(self).cache()[d@].1) == d@,
            final(self).last_poll() is Unchanged || final(self).last_poll() is Read,
            final(self).last_poll() matches PollRecord::Unchanged { count } ==> count == old(self).last_change_count()
                && r is None && final(self).cache() == old(self).cache()
                && final(self).last_change_count() == old(self).last_change_count(),
            final(self).last_poll() matches PollRecord::Read { count, text, image } ==> count != old(self).last_change_count()
                && final(self).last_change_count() == count
                && match text {
                    Some(data) => image is None && (r matches Some(m) && is_notify_for(m, FormatView::PlainText, data))
                        && final(self).cache() == old(self).cache().insert(sha256(data), (FormatView::PlainText, data)),
                    None => match image {
                        Some(Some(data)) => (r matches Some(m) && is_notify_for(m, FormatView::PngImage, data))
                            && final(self).cache() == old(self).cache().insert(sha256(data), (FormatView::PngImage, data)),
                        Some(None) => r is None && final(self).cache() == old(self).cache(),
                        None => false,
                    },
                },
    {
        proof { use_type_invariant(&*self); }
        let current_count = self.handler.get_change_count();
        if !self.note_change_count(current_count) {
            proof { use_type_invariant(&*self); }
            self.last_poll = Ghost(PollRecord::Unchanged { count: current_count });
            return None;
        }
        let text = self.handler.read_text();
        let image = if holds_text(&text) { None } else { Some(self.handler.read_image()) };
        proof { use_type_invariant(&*self); }
        self.last_poll = Ghost(PollRecord::Read {
            count: current_count,
            text: text_read_bytes(text),
            image: image_record(image),
        });
        self.absorb_reads(text, image)
    }

    /// Answer a request for the payload with digest `sha256`.
    pub fn get_payload(&self, sha256: &[u8; 32]) -> (r: Option<ControlMessage>)
        ensures
            self.cache().contains_key(sha256@) ==> (r matches Some(ControlMessage::ClipboardPayload { sha256: d, format, data })
                && d@ == sha256@ && (format@, data@) == self.cache()[sha256@]),
            !self.cache().contains_key(sha256@) ==> r is None,
    {
        proof { lemma_cache_index_lookup(self.entries(), sha256@); }
        match self.find_entry(sha256) {
            Some(i) => {
                let e = &self.cached_payloads[i];
                assert(entry_view(self.cached_payloads@[i as int]) == self.entries()[i as int]);
                Some(ControlMessage::ClipboardPayload { sha256: *sha256, format: e.format.clone(), data: e.data.clone() })
            },
            None => None,
        }
    }

    /// Apply a payload received from a peer to the local clipboard. Text is decoded as
    /// UTF-8 (invalid sequences replaced); formats other than text and PNG are ignored.
    pub fn apply_payload(&mut self, format: &ClipboardFormat, data: &[u8]) -> (r: Result<(), ClipboardError>)
        ensures
            final(self).cache() == old(self).cache(),
            !(format@ is PlainText || format@ is PngImage) ==> r is Ok
                && final(self).last_change_count() == old(self).last_change_count(),
            r matches Err(e) ==> (e matches ClipboardError::Platform(m)
                && exists|pe: PlatformError| m@ == #[trigger] platform_error_message(pe))
                && final(self).last_change_count() == old(self).last_change_count(),
            format@ is PlainText ==> (final(self).last_write() matches WriteRecord::Written { request, accepted, count_after }
                && request == WriteView::Text(utf8_lossy(data@)) && (r is Ok <==> accepted)
                && (accepted ==> final(self).last_change_count() == count_after)),
            format@ is PngImage ==> (final(self).last_write() matches WriteRecord::Written { request, accepted, count_after }
                && request == WriteView::Image(data@) && (r is Ok <==> accepted)
                && (accepted ==> final(self).last_change_count() == count_after)),
            !(format@ is PlainText || format@ is PngImage) ==> final(self).last_write() == old(self).last_write(),
    {
        proof { use_type_invariant(&*self); }
        match write_request(format, data) {
            None => Ok(()),
            Some(request) => {
                let written = match &request {
                    ClipboardWrite::Text(text) => self.handler.write_text(text.as_str()),
                    ClipboardWrite::Image(png) => self.handler.write_image(png.as_slice()),
                };
                // The counter is read only after a successful write.
                let count_after = match &written {
                    Ok(()) => self.handler.get_change_count(),
                    Err(_) => self.last_change_count,
                };
                self.last_write = Ghost(WriteRecord::Written {
                    request: write_view(request),
                    accepted: written is Ok,
                    count_after,
                });
                self.settle_write(written, count_after)
            },
        }
    }

    /// Take note of the native clipboard's answer to a write: on success, the change
    /// counter read after it, `count_after`, becomes the one seen last, so that the write
    /// is not announced back to the peers; an error is rendered as a platform error and
    /// changes nothing.
    pub fn settle_write(&mut self, written: Result<(), PlatformError>, count_after: u64) -> (r: Result<(), ClipboardError>)
        ensures
            final(self).cache() == old(self).cache(),
            written is Ok ==> r is Ok && final(self).last_change_count() == count_after,
            written matches Err(e) ==> (r matches Err(ClipboardError::Platform(m)) && m@ == platform_error_message(e))
                && final(self).last_change_count() == old(self).last_change_count(),
            final(self).last_write() == old(self).last_write(),
            final(self).last_poll() == old(self).last_poll(),
    {
        proof { use_type_invariant(&*self); }
        let outcome = write_outcome(written);
        if outcome.is_ok() {
            self.last_change_count = count_after;
        }
        outcome
    }
}

/// Whether a path starts with the Windows verbatim prefix `\\?\`.
pub open spec fn is_verbatim(path: Seq<char>) -> bool {
    path.len() >= 4 && path[0] == '\\' && path[1] == '\\' && path[2] == '?' && path[3] == '\\'
}

/// Whether a path starts as a Windows verbatim path does, with `\\?`.
pub open spec fn starts_like_verbatim(path: Seq<char>) -> bool {
    path.len() >= 3 && path[0] == '\\' && path[1] == '\\' && path[2] == '?'
}

/// A name that `Path::join` appends as a relative component on every platform: not
/// empty, with no separator and no drive colon.
pub open spec fn is_plain_component(part: Seq<char>) -> bool {
    part.len() > 0 && forall|i: int| 0 <= i < part.len() ==> part[i] != '/' && part[i] != '\\' && part[i] != ':'
}

/// `base` followed by `part`, with or without one path separator between them.
pub open spec fn is_appended(joined: Seq<char>, base: Seq<char>, part: Seq<char>) -> bool {
    ||| joined == base + part
    ||| joined == base + seq!['/'] + part
    ||| joined == base + seq!['\\'] + part
}

/// Calls `Path::join`, from a `&str` and back to a `String`. For a plain relative
/// component, the documentation of `PathBuf::push` has it appended to the path with a
/// separator as needed; which separator, and whether one is needed, depends on the
/// platform and is not stated. On Windows a verbatim path is also normalised, so nothing
/// is claimed of it. Both inputs are UTF-8, so the conversion back loses nothing.
#[verifier::external_body]
fn join_path(base: &str, part: &str) -> (r: String)
    requires
        is_plain_component(part@),
    ensures
        !is_verbatim(base@) ==> is_appended(r@, base@, part@),
{
    std::path::Path::new(base).join(part).to_string_lossy().into_owned()
}

/// Drag-and-drop file transfer manager
pub struct FileDropTransfer {
    incoming_dir: String,
}

impl FileDropTransfer {
    /// The directory incoming files are dropped into.
    pub closed spec fn directory(&self) -> Seq<char> {
        self.incoming_dir@
    }

    /// The manager for the home directory `home`: files land in
    /// `<home>/Downloads/ShareDrop`, joined as the platform joins paths.
    pub fn from_home(home: &str) -> (r: Self)
        ensures
            !starts_like_verbatim(home@) ==> exists|downloads: Seq<char>|
                is_appended(downloads, home@, "Downloads"@) && is_appended(r.directory(), downloads, "ShareDrop"@),
    {
        proof {
            reveal_strlit("Downloads");
            reveal_strlit("ShareDrop");
            assert(is_plain_component("Downloads"@));
            assert(is_plain_component("ShareDrop"@));
        }
        let downloads = join_path(home, "Downloads");
        proof {
            if !starts_like_verbatim(home@) {
                let h = home@;
                let d = downloads@;
                let part = "Downloads"@;
                assert(part[0] == 'D' && part[1] == 'o');
                if h.len() >= 3 {
                    assert(d[0] == h[0] && d[1] == h[1] && d[2] == h[2]);
                } else if d == h + part {
                    assert(d[2] == part[2 - h.len()]);
                } else if d == h + seq!['/'] + part {
                    assert(d[2] == (h + seq!['/'] + part)[2]);
                } else {
                    assert(d[2] == (h + seq!['\\'] + part)[2]);
                }
                assert(!is_verbatim(d));
            }
        }
        let incoming_dir = join_path(downloads.as_str(), "ShareDrop");
        FileDropTransfer { incoming_dir }
    }

    pub fn target_directory(&self) -> (r: &str)
        ensures
            r@ == self.directory(),
    {
        self.incoming_dir.as_str()
    }
}

/// Sequencer of the messages that send one file: an init message, then one chunk
/// message per block read, at consecutive offsets, then a done message.
/// The largest block a file transfer sends in one chunk (64 KiB).
pub const FILE_CHUNK_SIZE: usize = 65536;

/// Where the chunk sent from `offset` of a file of `len` bytes ends.
pub open spec fn chunk_end(offset: int, len: int) -> int {
    if offset + FILE_CHUNK_SIZE < len { offset + FILE_CHUNK_SIZE } else { len }
}

/// The chunks a transfer of `content` sends from `offset` on, in order.
pub open spec fn chunks_from(content: Seq<u8>, offset: int) -> Seq<Seq<u8>>
    decreases content.len() - offset,
{
    if offset < 0 || offset >= content.len() {
        Seq::empty()
    } else {
        seq![content.subrange(offset, chunk_end(offset, content.len() as int))]
            + chunks_from(content, chunk_end(offset, content.len() as int))
    }
}

/// Blocks put back together in order.
pub open spec fn concat_blocks(blocks: Seq<Seq<u8>>) -> Seq<u8>
    decreases blocks.len(),
{
    if blocks.len() == 0 {
        Seq::empty()
    } else {
        blocks[0] + concat_blocks(blocks.drop_first())
    }
}

/// The chunks a transfer sends from any offset on, put back together, are the rest of
/// the file; from offset zero, the whole file.
pub proof fn lemma_chunks_reassemble(content: Seq<u8>, offset: int)
    requires
        0 <= offset <= content.len(),
    ensures
        concat_blocks(chunks_from(content, offset)) == content.subrange(offset, content.len() as int),
    decreases content.len() - offset,
{
    if offset < content.len() {
        let e = chunk_end(offset, content.len() as int);
        let rest = chunks_from(content, e);
        lemma_chunks_reassemble(content, e);
        let all = chunks_from(content, offset);
        assert(all.drop_first() == rest);
        assert(content.subrange(offset, e) + content.subrange(e, content.len() as int)
            == content.subrange(offset, content.len() as int));
    } else {
        assert(content.subrange(offset, content.len() as int) == Seq::<u8>::empty());
    }
}

pub struct FileChunkSender {
    transfer_id: u64,
    offset: u64,
    finished: bool,
}

impl FileChunkSender {
    pub closed spec fn transfer_id(&self) -> u64 {
        self.transfer_id
    }

    /// Bytes announced so far.
    pub closed spec fn offset(&self) -> u64 {
        self.offset
    }

    pub closed spec fn finished(&self) -> bool {
        self.finished
    }

    /// Start a transfer, returning the sequencer and the init message.
    pub fn start(transfer_id: u64, file_name: String, total_size: u64, sha256: [u8; 32]) -> (r: (Self, ControlMessage))
        ensures
            r.0.transfer_id() == transfer_id,
            r.0.offset() == 0,
            !r.0.finished(),
            r.1 matches ControlMessage::FileTransferInit { transfer_id: t, file_name: n, total_size: s, sha256: d }
                && t == transfer_id && n@ == file_name@ && s == total_size && d@ == sha256@,
    {
        (
            FileChunkSender { transfer_id, offset: 0, finished: false },
            ControlMessage::FileTransferInit { transfer_id, file_name, total_size, sha256 },
        )
    }

    /// Start the transfer of a file whose bytes are `content`: the init message announces
    /// its length and its SHA-256 digest.
    pub fn start_for_content(transfer_id: u64, file_name: String, content: &[u8]) -> (r: (Self, ControlMessage))
        ensures
            r.0.transfer_id() == transfer_id,
            r.0.offset() == 0,
            !r.0.finished(),
            r.1 matches ControlMessage::FileTransferInit { transfer_id: t, file_name: n, total_size: s, sha256: d }
                && t == transfer_id && n@ == file_name@ && s == content@.len() && d@ == sha256(content@),
    {
        let digest = sha256_digest(content);
        Self::start(transfer_id, file_name, content.len() as u64, digest)
    }

    /// The next message of the transfer of `content`: the chunk of at most
    /// `FILE_CHUNK_SIZE` bytes that starts where the previous one ended, or, once every
    /// byte was sent, the end of the transfer.
    pub fn next_from(&mut self, content: &[u8]) -> (r: Option<ControlMessage>)
        requires
            old(self).offset() <= content@.len(),
        ensures
            final(self).transfer_id() == old(self).transfer_id(),
            final(self).offset() <= content@.len(),
            old(self).finished() ==> r is None && final(self).offset() == old(self).offset() && final(self).finished(),
            !old(self).finished() && old(self).offset() == content@.len() ==> (r matches Some(ControlMessage::FileTransferDone { transfer_id: t })
                && t == old(self).transfer_id()) && final(self).finished() && final(self).offset() == old(self).offset(),
            !old(self).finished() && old(self).offset() < content@.len() ==> (r matches Some(ControlMessage::FileTransferChunk { transfer_id: t, offset, data })
                && t == old(self).transfer_id() && offset == old(self).offset()
                && data@ == content@.subrange(old(self).offset() as int, chunk_end(old(self).offset() as int, content@.len() as int)))
                && !final(self).finished() && final(self).offset() == chunk_end(old(self).offset() as int, content@.len() as int),
    {
        if self.finished {
            return None;
        }
        let start = self.offset as usize;
        let end: usize = if content.len() - start > FILE_CHUNK_SIZE { start + FILE_CHUNK_SIZE } else { content.len() };
        let mut block: Vec<u8> = Vec::new();
        let mut i: usize = start;
        while i < end
            invariant
                start <= i <= end <= content@.len(),
                block@ == content@.subrange(start as int, i as int),
            decreases end - i,
        {
            block.push(content[i]);
            i = i + 1;
            proof {
                assert(block@ == content@.subrange(start as int, i as int));
            }
        }
        self.next(block)
    }

    /// The message for the next block read from the file; an empty block ends the transfer.
    pub fn next(&mut self, block: Vec<u8>) -> (r: Option<ControlMessage>)
        requires
            old(self).offset() + block@.len() <= u64::MAX,
        ensures
            final(self).transfer_id() == old(self).transfer_id(),
            old(self).finished() ==> r is None && final(self).offset() == old(self).offset() && final(self).finished(),
            !old(self).finished() && block@.len() == 0 ==> (r matches Some(ControlMessage::FileTransferDone { transfer_id: t })
                && t == old(self).transfer_id()) && final(self).finished() && final(self).offset() == old(self).offset(),
            !old(self).finished() && block@.len() > 0 ==> (r matches Some(ControlMessage::FileTransferChunk { transfer_id: t, offset, data })
                && t == old(self).transfer_id() && offset == old(self).offset() && data@ == block@)
                && !final(self).finished() && final(self).offset() == old(self).offset() + block@.len(),
    {
        if self.finished {
            return None;
        }
        if block.len() == 0 {
            self.finished = true;
            return Some(ControlMessage::FileTransferDone { transfer_id: self.transfer_id });
        }
        let offset = self.offset;
        self.offset = self.offset + block.len() as u64;
        Some(ControlMessage::FileTransferChunk { transfer_id: self.transfer_id, offset, data: block })
    }
}

} // verus!
