//! The one-line editor in which a download URL is typed, and what submitting
//! it produces.

use vstd::prelude::*;
use vstd::string::*;
use crate::job::{DownloadJob, JobView, Status, fresh_job, is_random_uuid, random_job_id};
use crate::text::{chars_of, string_of_range};

verus! {

/// The text being edited and the cursor, counted in characters.
#[derive(Debug)]
pub struct Insert {
    pub url: String,
    pub character_index: usize,
}

/// `n` limited to at most `hi`.
pub open spec fn at_most(n: int, hi: int) -> int {
    if n <= hi {
        n
    } else {
        hi
    }
}

/// The first `n` characters of `s` (all of them if it has fewer).
pub open spec fn prefix_chars(s: Seq<char>, n: int) -> Seq<char> {
    s.take(at_most(n, s.len() as int))
}

/// `s` without its first `n` characters (empty if it has fewer).
pub open spec fn suffix_chars(s: Seq<char>, n: int) -> Seq<char> {
    s.skip(at_most(n, s.len() as int))
}

/// The text after typing `c` with the cursor at `cursor`: the character goes
/// before the character under the cursor, or at the end.
pub open spec fn text_after_enter(text: Seq<char>, cursor: usize, c: char) -> Seq<char> {
    prefix_chars(text, cursor as int).push(c) + suffix_chars(text, cursor as int)
}

/// The cursor after typing: one to the right, but not past the end.
pub open spec fn cursor_after_enter(text: Seq<char>, cursor: usize) -> usize {
    let moved = if cursor == usize::MAX {
        cursor as int
    } else {
        cursor + 1
    };
    at_most(moved, (text.len() + 1) as int) as usize
}

/// The text after deleting the character left of the cursor.
pub open spec fn text_after_delete(text: Seq<char>, cursor: usize) -> Seq<char> {
    if cursor == 0 {
        text
    } else {
        prefix_chars(text, cursor - 1) + suffix_chars(text, cursor as int)
    }
}

/// The cursor after deleting: one to the left, but not past the end.
pub open spec fn cursor_after_delete(text: Seq<char>, cursor: usize) -> usize {
    if cursor == 0 {
        cursor
    } else {
        at_most(cursor - 1, text_after_delete(text, cursor).len() as int) as usize
    }
}

impl Insert {
    /// An empty editor.
    pub fn new() -> (r: Self)
        ensures
            r.url@ == Seq::<char>::empty(),
            r.character_index == 0,
    {
        Insert { url: String::new(), character_index: 0 }
    }

    fn char_count(&self) -> (n: usize)
        ensures
            n == self.url@.len(),
    {
        self.url.as_str().unicode_len()
    }

    fn clamp_cursor(&self, new_cursor_pos: usize) -> (r: usize)
        ensures
            r == at_most(new_cursor_pos as int, self.url@.len() as int),
    {
        let count = self.char_count();
        if new_cursor_pos <= count {
            new_cursor_pos
        } else {
            count
        }
    }

    /// Moves the cursor one character left, staying within the text.
    pub fn move_cursor_left(&mut self)
        ensures
            final(self).url@ == old(self).url@,
            final(self).character_index == at_most(
                if old(self).character_index == 0 {
                    0
                } else {
                    old(self).character_index - 1
                },
                old(self).url@.len() as int,
            ),
    {
        let cursor_moved_left = self.character_index.saturating_sub(1);
        self.character_index = self.clamp_cursor(cursor_moved_left);
    }

    /// Moves the cursor one character right, staying within the text.
    pub fn move_cursor_right(&mut self)
        ensures
            final(self).url@ == old(self).url@,
            final(self).character_index == at_most(
                if old(self).character_index == usize::MAX {
                    usize::MAX as int
                } else {
                    old(self).character_index + 1
                },
                old(self).url@.len() as int,
            ),
    {
        let cursor_moved_right = self.character_index.saturating_add(1);
        self.character_index = self.clamp_cursor(cursor_moved_right);
    }

    /// Where typed characters go, counted in characters: the cursor, or the
    /// end of the text when the cursor is past it.
    fn insert_position(&self) -> (k: usize)
        ensures
            k == at_most(self.character_index as int, self.url@.len() as int),
    {
        self.clamp_cursor(self.character_index)
    }

    /// Inserts `new_char` at the cursor and moves the cursor past it.
    pub fn enter_char(&mut self, new_char: char)
        ensures
            final(self).url@ == text_after_enter(old(self).url@, old(self).character_index, new_char),
            final(self).character_index == cursor_after_enter(old(self).url@, old(self).character_index),
    {
        let k = self.insert_position();
        let chars = chars_of(self.url.as_str());
        let n = chars.len();
        let mut text = string_of_range(&chars, 0, k);
        crate::text::push_char(&mut text, new_char);
        text.append(string_of_range(&chars, k, n).as_str());
        proof {
            assert(chars@.subrange(0, k as int) =~= prefix_chars(chars@, self.character_index as int));
            assert(chars@.subrange(k as int, n as int) =~= suffix_chars(chars@, self.character_index as int));
        }
        self.url = text;
        self.move_cursor_right();
    }

    /// Deletes the character left of the cursor, if any, and moves the
    /// cursor left.
    pub fn delete_char(&mut self)
        ensures
            final(self).url@ == text_after_delete(old(self).url@, old(self).character_index),
            final(self).character_index == cursor_after_delete(old(self).url@, old(self).character_index),
    {
        let is_not_cursor_leftmost = self.character_index != 0;
        if is_not_cursor_leftmost {
            let current_index = self.character_index;
            let from_left_to_current_index = current_index - 1;
            let chars = chars_of(self.url.as_str());
            let n = chars.len();
            let a = if from_left_to_current_index <= n {
                from_left_to_current_index
            } else {
                n
            };
            let b = if current_index <= n {
                current_index
            } else {
                n
            };
            let mut text = string_of_range(&chars, 0, a);
            text.append(string_of_range(&chars, b, n).as_str());
            proof {
                assert(chars@.subrange(0, a as int) =~= prefix_chars(chars@, current_index - 1));
                assert(chars@.subrange(b as int, n as int) =~= suffix_chars(chars@, current_index as int));
            }
            self.url = text;
            self.move_cursor_left();
        }
    }

    /// Empties the text and puts the cursor at the start.
    pub fn clean(&mut self)
        ensures
            final(self).url@ == Seq::<char>::empty(),
            final(self).character_index == 0,
    {
        self.url = String::new();
        self.character_index = 0;
    }
}

/// Typing a character and deleting it again gives back the text and cursor
/// one started from, when the cursor was within the text.
pub proof fn enter_then_delete_restores(text: Seq<char>, cursor: usize, c: char)
    requires
        cursor <= text.len(),
        text.len() < usize::MAX,
    ensures
        text_after_delete(
            text_after_enter(text, cursor, c),
            cursor_after_enter(text, cursor),
        ) == text,
        cursor_after_delete(text_after_enter(text, cursor, c), cursor_after_enter(text, cursor))
            == cursor,
{
    let t = text_after_enter(text, cursor, c);
    assert(t.len() == text.len() + 1);
    assert(prefix_chars(t, cursor as int) =~= text.take(cursor as int));
    assert(suffix_chars(t, cursor + 1) =~= text.skip(cursor as int));
    assert(text.take(cursor as int) + text.skip(cursor as int) =~= text);
}

/// The cursor never leaves the text: editing keeps it between the start and
/// the end of the text.
pub proof fn cursor_stays_in_text(text: Seq<char>, cursor: usize, c: char)
    requires
        cursor <= text.len(),
    ensures
        cursor_after_enter(text, cursor) <= text_after_enter(text, cursor, c).len(),
        cursor_after_delete(text, cursor) <= text_after_delete(text, cursor).len(),
{
}

/// Whether a character has the Unicode `White_Space` property, as
/// `char::is_whitespace` reports it.
pub uninterp spec fn white_space(c: char) -> bool;

/// Trusted: wraps `char::is_whitespace`. Its result is named [`white_space`];
/// for ASCII characters the contract also states what std documents through
/// the Unicode property: space and the controls tab through carriage return
/// are white space, no other ASCII character is.
#[verifier::external_body]
fn is_white_space(c: char) -> (r: bool)
    ensures
        r == white_space(c),
        (c as u32) < 128 ==> (r <==> ((c as u32) == 32 || (9 <= (c as u32) && (c as u32) <= 13))),
{
    c.is_whitespace()
}

/// `s` without its leading white space.
pub open spec fn trim_start(s: Seq<char>) -> Seq<char>
    decreases s.len(),
{
    if s.len() > 0 && white_space(s[0]) {
        trim_start(s.drop_first())
    } else {
        s
    }
}

/// `s` without its trailing white space.
pub open spec fn trim_end(s: Seq<char>) -> Seq<char>
    decreases s.len(),
{
    if s.len() > 0 && white_space(s.last()) {
        trim_end(s.drop_last())
    } else {
        s
    }
}

/// `s` without leading and trailing white space.
pub open spec fn trim(s: Seq<char>) -> Seq<char> {
    trim_end(trim_start(s))
}

/// Removes leading and trailing white space.
pub fn trim_text(s: &str) -> (r: String)
    ensures
        r@ == trim(s@),
{
    let chars = chars_of(s);
    let n = chars.len();
    let mut a: usize = 0;
    assert(chars@.skip(0) =~= chars@);
    while a < n && is_white_space(chars[a])
        invariant
            n == chars@.len(),
            a <= n,
            trim_start(chars@) == trim_start(chars@.skip(a as int)),
        decreases n - a,
    {
        proof {
            assert(chars@.skip(a as int).drop_first() =~= chars@.skip(a + 1));
        }
        a = a + 1;
    }
    assert(trim_start(chars@) == chars@.skip(a as int));
    let mut b: usize = n;
    proof {
        assert(chars@.skip(a as int) =~= chars@.subrange(a as int, n as int));
    }
    while b > a && is_white_space(chars[b - 1])
        invariant
            n == chars@.len(),
            a <= b <= n,
            trim_end(chars@.subrange(a as int, n as int)) == trim_end(
                chars@.subrange(a as int, b as int),
            ),
        decreases b,
    {
        proof {
            assert(chars@.subrange(a as int, b as int).drop_last() =~= chars@.subrange(a as int, b - 1));
        }
        b = b - 1;
    }
    string_of_range(&chars, a, b)
}

/// What `url::Url::parse` makes of a text: the URL's serialization and, for
/// URLs that can be a base, its path segments.
pub uninterp spec fn url_parse(input: Seq<char>) -> Option<(Seq<char>, Option<Seq<Seq<char>>>)>;

/// The parts of a parsed URL that the editor reads.
pub struct ParsedUrl {
    pub text: String,
    pub segments: Option<Vec<String>>,
}

/// The value of a parse result, as plain sequences.
pub open spec fn parsed_view(p: Option<ParsedUrl>) -> Option<(Seq<char>, Option<Seq<Seq<char>>>)> {
    match p {
        Some(u) => Some(
            (
                u.text@,
                match u.segments {
                    Some(v) => Some(v@.map_values(|x: String| x@)),
                    None => None,
                },
            ),
        ),
        None => None,
    }
}

/// Parses an absolute URL.
///
/// Trusted: wraps `url::Url::parse`, then reads the parsed URL's `as_str`
/// and `path_segments`. The result is named [`url_parse`]; beside it the
/// contract states what the crate documents of `path_segments`: when there
/// are segments, there is at least one (possibly empty).
#[verifier::external_body]
fn parse_url(input: &str) -> (r: Option<ParsedUrl>)
    ensures
        parsed_view(r) == url_parse(input@),
        r matches Some(u) ==> (u.segments matches Some(v) ==> v@.len() >= 1),
{
    match url::Url::parse(input) {
        Ok(u) => {
            let segments = match u.path_segments() {
                Some(split) => Some(split.map(String::from).collect()),
                None => None,
            };
            Some(ParsedUrl { text: u.as_str().to_string(), segments })
        },
        Err(_) => None,
    }
}

/// What submitting the editor's text gives: nothing (the text was blank), a
/// job that failed at once, or a job to download.
#[derive(Debug)]
pub enum Submission {
    Nothing,
    Rejected(DownloadJob),
    Accepted(DownloadJob),
}

/// The value of a [`Submission`].
pub enum SubmissionView {
    Nothing,
    Rejected(JobView),
    Accepted(JobView),
}

impl View for Submission {
    type V = SubmissionView;

    open spec fn view(&self) -> SubmissionView {
        match self {
            Submission::Nothing => SubmissionView::Nothing,
            Submission::Rejected(j) => SubmissionView::Rejected(j@),
            Submission::Accepted(j) => SubmissionView::Accepted(j@),
        }
    }
}

/// A job that failed before it started.
pub open spec fn failed_job(id: u128, url: Seq<char>, filename: Seq<char>) -> JobView {
    JobView { status: Status::Failed, ..fresh_job(id, url, filename) }
}

/// The file name taken from a URL's path: its last segment.
pub open spec fn last_segment(segments: Seq<Seq<char>>) -> Seq<char> {
    if segments.len() > 0 {
        segments.last()
    } else {
        "Failed to get file name"@
    }
}

/// What submitting the (trimmed) text `text` gives, where `parsed` is what
/// URL parsing made of it and `id` the identifier the job receives.
pub open spec fn expected_submission(
    text: Seq<char>,
    parsed: Option<(Seq<char>, Option<Seq<Seq<char>>>)>,
    id: u128,
) -> SubmissionView {
    if text.len() == 0 {
        SubmissionView::Nothing
    } else {
        match parsed {
            None => SubmissionView::Rejected(failed_job(id, ""@, "Failed to parse URL"@)),
            Some((serialized, None)) => SubmissionView::Rejected(
                failed_job(id, ""@, "Failed to get file name"@),
            ),
            Some((serialized, Some(segments))) => {
                let name = last_segment(segments);
                if name.len() == 0 {
                    SubmissionView::Rejected(failed_job(id, serialized, "Failed to get file name"@))
                } else {
                    SubmissionView::Accepted(fresh_job(id, serialized, name))
                }
            },
        }
    }
}

fn failed(id: u128, url: &str, filename: &str) -> (job: DownloadJob)
    ensures
        job@ == failed_job(id, url@, filename@),
{
    let mut job = DownloadJob::with_id(id, url, filename);
    job.status = Status::Failed;
    job
}

/// Decides what a submitted text gives, from the text (already trimmed),
/// what URL parsing made of it, and the identifier for the job.
pub fn decide_submission(text: &str, parsed: Option<ParsedUrl>, id: u128) -> (r: Submission)
    ensures
        r@ == expected_submission(text@, parsed_view(parsed), id),
{
    if text.is_empty() {
        return Submission::Nothing;
    }
    match parsed {
        None => Submission::Rejected(failed(id, "", "Failed to parse URL")),
        Some(u) => match u.segments {
            None => Submission::Rejected(failed(id, "", "Failed to get file name")),
            Some(segments) => {
                let ghost segs = segments@.map_values(|x: String| x@);
                let n = segments.len();
                assert(segs.len() == n);
                if n == 0 {
                    assert(last_segment(segs) == "Failed to get file name"@);
                    assert("Failed to get file name"@.len() > 0) by {
                        reveal_strlit("Failed to get file name");
                    }
                    return Submission::Accepted(DownloadJob::with_id(id, u.text.as_str(), "Failed to get file name"));
                }
                let name = &segments[n - 1];
                assert(name@ == last_segment(segs));
                if name.as_str().is_empty() {
                    Submission::Rejected(failed(id, u.text.as_str(), "Failed to get file name"))
                } else {
                    Submission::Accepted(DownloadJob::with_id(id, u.text.as_str(), name.as_str()))
                }
            },
        },
    }
}

impl Insert {
    /// Submits the text: it is trimmed, parsed as a URL and turned into a job
    /// named after the last segment of the URL's path; the editor is emptied
    /// whatever the outcome.
    pub fn submit_message(&mut self) -> (r: Submission)
        ensures
            final(self).url@ == Seq::<char>::empty(),
            final(self).character_index == 0,
            exists|id: u128|
                #![trigger is_random_uuid(id)]
                is_random_uuid(id) && r@ == expected_submission(
                    trim(old(self).url@),
                    url_parse(trim(old(self).url@)),
                    id,
                ),
    {
        let text = trim_text(self.url.as_str());
        self.url = text;
        if self.url.as_str().is_empty() {
            self.clean();
            assert(is_random_uuid(0x40008000000000000000u128)) by (bit_vector);
            return Submission::Nothing;
        }
        let parsed = parse_url(self.url.as_str());
        let id = random_job_id();
        let r = decide_submission(self.url.as_str(), parsed, id);
        self.clean();
        r
    }
}

} // verus!

verus! {

/// Moving the cursor left and then right gives back the cursor, when it was
/// inside the text and not at its start.
pub proof fn left_then_right_restores(text: Seq<char>, cursor: usize)
    requires
        0 < cursor <= text.len(),
    ensures
        ({
            let left = at_most(cursor - 1, text.len() as int);
            at_most(left + 1, text.len() as int) == cursor
        }),
{
}

} // verus!

verus! {

proof fn trim_start_shape(s: Seq<char>)
    ensures
        trim_start(s).len() == 0 || !white_space(trim_start(s)[0]),
    decreases s.len(),
{
    if s.len() > 0 && white_space(s[0]) {
        trim_start_shape(s.drop_first());
    }
}

proof fn trim_end_shape(t: Seq<char>)
    ensures
        trim_end(t).len() <= t.len(),
        forall|i: int| 0 <= i < trim_end(t).len() ==> #[trigger] trim_end(t)[i] == t[i],
        trim_end(t).len() == 0 || !white_space(trim_end(t).last()),
    decreases t.len(),
{
    if t.len() > 0 && white_space(t.last()) {
        trim_end_shape(t.drop_last());
    }
}

/// Trimming twice is trimming once.
pub proof fn trim_is_idempotent(s: Seq<char>)
    ensures
        trim(trim(s)) == trim(s),
{
    let a = trim_start(s);
    trim_start_shape(s);
    trim_end_shape(a);
    let u = trim_end(a);
    if u.len() > 0 {
        assert(u[0] == a[0]);
    }
    assert(trim_start(u) == u);
    assert(trim_end(u) == u);
}

} // verus!

verus! {

/// A URL whose path ends in a non-empty segment gives an accepted, pending
/// job for the URL, named after that last segment, whatever the number of
/// segments before it.
pub proof fn accepted_job_named_after_last_segment(
    text: Seq<char>,
    serialized: Seq<char>,
    segments: Seq<Seq<char>>,
    id: u128,
)
    requires
        text.len() > 0,
        segments.len() >= 1,
        segments[segments.len() - 1].len() > 0,
    ensures
        expected_submission(text, Some((serialized, Some(segments))), id) matches
            SubmissionView::Accepted(j) && j.filename == segments[segments.len() - 1]
            && j.url == serialized && j.id == id && j.status == Status::Pending,
{
}

/// A URL whose path ends in an empty segment gives a failed job for the URL
/// that says no file name was found.
pub proof fn empty_last_segment_rejected(
    text: Seq<char>,
    serialized: Seq<char>,
    segments: Seq<Seq<char>>,
    id: u128,
)
    requires
        text.len() > 0,
        segments.len() >= 1,
        segments[segments.len() - 1].len() == 0,
    ensures
        expected_submission(text, Some((serialized, Some(segments))), id) matches
            SubmissionView::Rejected(j) && j.filename == "Failed to get file name"@
            && j.url == serialized && j.id == id && j.status == Status::Failed,
{
}

/// A text that does not parse as a URL gives a failed job without URL that
/// says so; a blank text gives nothing.
pub proof fn unparsable_or_blank_text(text: Seq<char>, id: u128)
    ensures
        text.len() > 0 ==> (expected_submission(text, None, id) matches SubmissionView::Rejected(j)
            && j.filename == "Failed to parse URL"@ && j.url.len() == 0 && j.id == id
            && j.status == Status::Failed),
        text.len() == 0 ==> forall|p: Option<(Seq<char>, Option<Seq<Seq<char>>>)>|
            expected_submission(text, p, id) == SubmissionView::Nothing,
{
    reveal_strlit("");
}

} // verus!

verus! {

/// Typing puts the character at the cursor (or at the end when the cursor is
/// past it), keeps the characters before it and shifts the ones after it by
/// one.
pub proof fn typed_char_lands_at_cursor(text: Seq<char>, cursor: usize, c: char)
    ensures
        ({
            let k = if cursor <= text.len() { cursor as int } else { text.len() as int };
            let t = text_after_enter(text, cursor, c);
            &&& t.len() == text.len() + 1
            &&& t[k] == c
            &&& forall|i: int| 0 <= i < k ==> t[i] == text[i]
            &&& forall|i: int| k <= i < text.len() ==> t[i + 1] == text[i]
        }),
{
}

/// Deleting removes exactly the character left of the cursor, when the
/// cursor is inside the text, and moves the cursor onto its place.
pub proof fn delete_removes_char_before_cursor(text: Seq<char>, cursor: usize)
    requires
        0 < cursor <= text.len(),
    ensures
        ({
            let t = text_after_delete(text, cursor);
            &&& t.len() == text.len() - 1
            &&& forall|i: int| 0 <= i < cursor - 1 ==> t[i] == text[i]
            &&& forall|i: int| cursor - 1 <= i < t.len() ==> t[i] == text[i + 1]
            &&& cursor_after_delete(text, cursor) == cursor - 1
        }),
{
}

} // verus!
