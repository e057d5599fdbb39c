//! Errors reported by LÖVR, and the report that the host shows for them.
use vstd::prelude::*;

use std::backtrace::Backtrace;

verus! {

/// std's `Backtrace`, carried by errors; opaque here.
#[verifier::external_type_specification]
#[verifier::external_body]
pub struct ExBacktrace(Backtrace);

/// The message used when LÖVR fails without saying why.
pub open spec fn unknown_error_message() -> Seq<char> {
    "Unknown LOVR error"@
}

/// The message of an error whose last error text from LÖVR was `raw`.
pub open spec fn error_message(raw: Option<String>) -> Seq<char> {
    match raw {
        Some(text) => text@,
        None => unknown_error_message(),
    }
}

/// An error reported by LÖVR: its message, and the backtrace of the place
/// where it was noticed.
#[derive(Debug)]
pub struct LovrError(String, Backtrace);

/// The result of a call into LÖVR.
pub type LovrResult<T> = Result<T, LovrError>;

/// `Backtrace::force_capture`: the backtrace of the calling thread. What it
/// holds depends on the machine and the build, so nothing is stated of it.
#[verifier::external_body]
fn capture_backtrace() -> Backtrace {
    Backtrace::force_capture()
}

impl LovrError {
    /// The error's message.
    pub closed spec fn message(&self) -> Seq<char> {
        self.0@
    }

    /// The backtrace captured with the error.
    pub closed spec fn backtrace(&self) -> Backtrace {
        self.1
    }

    /// Whether `text` is a rendering of this error's backtrace, as
    /// `to_string` gives it.
    pub open spec fn renders_backtrace(&self, text: String) -> bool {
        vstd::string::to_string_from_display_ensures::<Backtrace>(&self.backtrace(), text)
    }

    /// An error with this message, and the backtrace of the caller.
    pub fn new(message: String) -> (e: LovrError)
        ensures
            e.message() == message@,
    {
        LovrError(message, capture_backtrace())
    }

    /// The error's message.
    pub fn message_text(&self) -> (r: &String)
        ensures
            r@ == self.message(),
    {
        &self.0
    }
}

/// Checks the status that a LÖVR function returned: `Ok` when it succeeded;
/// otherwise an error whose message is LÖVR's last error text, read by
/// `last_error` only then, or a fixed message when LÖVR has none.
pub fn lovr_assert<F: FnOnce() -> Option<String>>(condition: bool, last_error: F) -> (r:
    LovrResult<()>)
    requires
        !condition ==> call_requires(last_error, ()),
    ensures
        r is Ok <==> condition,
        r matches Err(e) ==> exists|raw: Option<String>|
            call_ensures(last_error, (), raw) && e.message() == error_message(raw),
{
    if condition {
        return Ok(());
    }
    let raw = last_error();
    let ghost returned = raw;
    let message = match raw {
        Some(text) => text,
        None => String::from_str("Unknown LOVR error"),
    };
    assert(message@ == error_message(returned));
    Err(LovrError::new(message))
}

/// The name of the host's run closure in a backtrace: the frames from the
/// line that holds it on belong to the host, not to the game.
pub open spec fn run_loop_frame() -> Seq<char> {
    ": lovr_rs::lovr_run::{{closure}}"@
}

/// The length of the first line of `text`: the index of its first `'\n'`,
/// or its length when it has none.
pub open spec fn line_end(text: Seq<char>) -> int
    decreases text.len(),
{
    if text.len() == 0 || text[0] == '\n' {
        0
    } else {
        1 + line_end(text.drop_first())
    }
}

/// `line` without one trailing `'\r'`.
pub open spec fn strip_cr(line: Seq<char>) -> Seq<char> {
    if line.len() > 0 && line.last() == '\r' {
        line.drop_last()
    } else {
        line
    }
}

/// The lines of `text`, as `str::lines` yields them: the pieces between
/// `'\n'` characters, without a `'\r'` just before a `'\n'`, and without an
/// empty piece after a final `'\n'`.
pub open spec fn lines(text: Seq<char>) -> Seq<Seq<char>>
    decreases text.len(),
{
    if text.len() == 0 {
        Seq::empty()
    } else {
        let end = line_end(text);
        proof {
            lemma_line_end_bounds(text);
        }
        if end >= text.len() {
            seq![text]
        } else {
            seq![strip_cr(text.take(end))] + lines(text.skip(end + 1))
        }
    }
}

/// Whether `needle` occurs in `haystack`.
pub open spec fn contains(haystack: Seq<char>, needle: Seq<char>) -> bool {
    exists|i: int|
        0 <= i && i + needle.len() <= haystack.len() && #[trigger] haystack.subrange(
            i,
            i + needle.len(),
        ) == needle
}

/// The lines before the first one in which `marker` occurs.
pub open spec fn lines_before(lines: Seq<Seq<char>>, marker: Seq<char>) -> Seq<Seq<char>>
    decreases lines.len(),
{
    if lines.len() == 0 || contains(lines[0], marker) {
        Seq::empty()
    } else {
        seq![lines[0]] + lines_before(lines.drop_first(), marker)
    }
}

/// The lines joined, with `'\n'` between each two.
pub open spec fn join_lines(lines: Seq<Seq<char>>) -> Seq<char>
    decreases lines.len(),
{
    if lines.len() == 0 {
        Seq::empty()
    } else if lines.len() == 1 {
        lines[0]
    } else {
        lines[0] + seq!['\n'] + join_lines(lines.drop_first())
    }
}

/// The report of an error: its message, a blank line, the lines of the
/// backtrace before the host's run closure, and a final `'\n'`.
pub open spec fn report_text(message: Seq<char>, backtrace: Seq<char>) -> Seq<char> {
    message + seq!['\n', '\n'] + join_lines(lines_before(lines(backtrace), run_loop_frame()))
        + seq!['\n']
}

/// Proof that the first line ends within the text.
pub proof fn lemma_line_end_bounds(text: Seq<char>)
    ensures
        0 <= line_end(text) <= text.len(),
    decreases text.len(),
{
    if text.len() > 0 && text[0] != '\n' {
        lemma_line_end_bounds(text.drop_first());
    }
}

/// Proof that the first line ends at the first `'\n'`.
proof fn lemma_line_end_at(text: Seq<char>, k: int)
    requires
        0 <= k <= text.len(),
        forall|j: int| 0 <= j < k ==> text[j] != '\n',
        k == text.len() || text[k] == '\n',
    ensures
        line_end(text) == k,
    decreases k,
{
    if k > 0 {
        lemma_line_end_at(text.drop_first(), k - 1);
    }
}

/// Proof that lines free of the marker pass through unchanged.
proof fn lemma_lines_before_append(
    done: Seq<Seq<char>>,
    rest: Seq<Seq<char>>,
    marker: Seq<char>,
)
    requires
        forall|i: int| 0 <= i < done.len() ==> !contains(#[trigger] done[i], marker),
    ensures
        lines_before(done + rest, marker) == done + lines_before(rest, marker),
    decreases done.len(),
{
    if done.len() > 0 {
        assert((done + rest).drop_first() == done.drop_first() + rest);
        lemma_lines_before_append(done.drop_first(), rest, marker);
        assert(done == seq![done[0]] + done.drop_first());
    } else {
        assert(done + rest == rest);
    }
}

/// Proof that joining one more line appends it after a `'\n'`.
proof fn lemma_join_push(done: Seq<Seq<char>>, line: Seq<char>)
    ensures
        join_lines(done.push(line)) == if done.len() == 0 {
            line
        } else {
            join_lines(done) + seq!['\n'] + line
        },
    decreases done.len(),
{
    if done.len() > 1 {
        lemma_join_push(done.drop_first(), line);
        assert(done.push(line).drop_first() == done.drop_first().push(line));
        assert(done.push(line)[0] == done[0]);
        assert(join_lines(done.push(line)) == done[0] + seq!['\n'] + (join_lines(
            done.drop_first(),
        ) + seq!['\n'] + line));
        assert(join_lines(done) == done[0] + seq!['\n'] + join_lines(done.drop_first()));
        assert(join_lines(done.push(line)) =~= join_lines(done) + seq!['\n'] + line);
    } else if done.len() == 1 {
        assert(done.push(line).drop_first() == seq![line]);
        assert(join_lines(seq![line]) == line);
        assert(join_lines(done) == done[0]);
    }
}

/// The characters of `text`.
fn chars_of(text: &str) -> (r: Vec<char>)
    ensures
        r@ == text@,
{
    let mut r: Vec<char> = Vec::new();
    for c in it: text.chars()
        invariant
            r@ == it.seq().take(it.index() as int),
    {
        r.push(c);
    }
    r
}

/// `String::from_iter` over characters: the string of `chars`, in order.
#[verifier::external_body]
fn string_from_chars(chars: Vec<char>) -> (r: String)
    ensures
        r@ == chars@,
{
    String::from_iter(chars)
}

/// Whether `needle` occurs in `haystack`.
pub fn contains_chars(haystack: &Vec<char>, needle: &Vec<char>) -> (r: bool)
    ensures
        r == contains(haystack@, needle@),
{
    let mut i: usize = 0;
    while i <= haystack.len() && needle.len() <= haystack.len() - i
        invariant
            i <= haystack@.len() + 1,
            i > haystack@.len() ==> needle@.len() > 0,
            forall|k: int|
                0 <= k < i ==> #[trigger] haystack@.subrange(k, k + needle@.len()) != needle@,
        decreases haystack@.len() + 1 - i,
    {
        let mut j: usize = 0;
        while j < needle.len() && haystack[i + j] == needle[j]
            invariant
                i + needle@.len() <= haystack@.len(),
                haystack@.len() <= usize::MAX,
                j <= needle@.len(),
                forall|t: int| 0 <= t < j ==> haystack@[i + t] == needle@[t],
            decreases needle@.len() - j,
        {
            j = j + 1;
        }
        if j == needle.len() {
            assert(haystack@.subrange(i as int, i + needle@.len()) =~= needle@);
            return true;
        }
        assert(haystack@.subrange(i as int, i + needle@.len())[j as int] != needle@[j as int]);
        i = i + 1;
    }
    assert forall|k: int|
        0 <= k && k + needle@.len() <= haystack@.len() implies #[trigger] haystack@.subrange(
        k,
        k + needle@.len(),
    ) != needle@ by {
        assert(k < i);
    }
    false
}

/// The report of an error with this message and backtrace text: the message,
/// a blank line, the backtrace lines before the one that names the host's
/// run closure, joined by `'\n'`, and a final `'\n'`.
pub fn error_report(message: &str, backtrace: &str) -> (r: String)
    ensures
        r@ == report_text(message@, backtrace@),
{
    let bt = chars_of(backtrace);
    let marker = chars_of(": lovr_rs::lovr_run::{{closure}}");
    let mut out = chars_of(message);
    out.push('\n');
    out.push('\n');
    let ghost head = out@;
    let ghost mut done: Seq<Seq<char>> = Seq::empty();
    let len: usize = bt.len();
    let mut pos: usize = 0;
    let mut stopped = false;
    let mut first = true;
    assert(bt@.skip(0) == bt@);
    assert(done + lines(bt@) == lines(bt@));
    while pos < len && !stopped
        invariant
            first <==> done.len() == 0,
            len == bt@.len(),
            pos <= len,
            marker@ == run_loop_frame(),
            head == message@ + seq!['\n', '\n'],
            forall|i: int| 0 <= i < done.len() ==> !contains(#[trigger] done[i], marker@),
            stopped ==> lines_before(lines(bt@), marker@) == done,
            !stopped ==> lines(bt@) == done + lines(bt@.skip(pos as int)),
            out@ == head + join_lines(done),
        decreases (len - pos) * 2 + if stopped {
            0int
        } else {
            1int
        },
    {
        let ghost rest = bt@.skip(pos as int);
        let mut end: usize = pos;
        while end < len && bt[end] != '\n'
            invariant
                len == bt@.len(),
                pos <= end <= len,
                forall|j: int| pos <= j < end ==> bt@[j] != '\n',
            decreases len - end,
        {
            end = end + 1;
        }
        proof {
            lemma_line_end_at(rest, end - pos);
        }
        let mut stop: usize = end;
        if end < len && end > pos && bt[end - 1] == '\r' {
            stop = end - 1;
        }
        let mut line: Vec<char> = Vec::new();
        let mut k: usize = pos;
        while k < stop
            invariant
                pos <= k <= stop,
                stop <= len,
                len == bt@.len(),
                line@ == bt@.subrange(pos as int, k as int),
            decreases stop - k,
        {
            line.push(bt[k]);
            k = k + 1;
        }
        proof {
            if end < len {
                assert(rest.take(end - pos) == bt@.subrange(pos as int, end as int));
                assert(line@ == strip_cr(rest.take(end - pos)));
                assert(rest.skip(end - pos + 1) == bt@.skip(end + 1));
            } else {
                assert(line@ == rest);
            }
            assert(lines(rest) == seq![line@] + if end < len {
                lines(bt@.skip(end + 1))
            } else {
                Seq::empty()
            });
        }
        if contains_chars(&line, &marker) {
            proof {
                lemma_lines_before_append(done, lines(rest), marker@);
            }
            stopped = true;
        } else {
            if !first {
                out.push('\n');
            }
            let ghost sep = out@;
            let mut k: usize = 0;
            while k < line.len()
                invariant
                    k <= line@.len(),
                    out@ == sep + line@.take(k as int),
                decreases line@.len() - k,
            {
                out.push(line[k]);
                k = k + 1;
                assert(out@ == sep + line@.take(k as int));
            }
            proof {
                lemma_join_push(done, line@);
                assert(line@.take(line@.len() as int) == line@);
                let next_lines = if end < len {
                    lines(bt@.skip(end + 1))
                } else {
                    Seq::empty()
                };
                assert(done + (seq![line@] + next_lines) == done.push(line@) + next_lines);
                if end >= len {
                    assert(bt@.skip(len as int) == Seq::<char>::empty());
                }
                done = done.push(line@);
            }
            first = false;
            pos = if end < len { end + 1 } else { len };
        }
    }
    proof {
        if !stopped {
            assert(bt@.skip(pos as int) == Seq::<char>::empty());
            assert(lines(bt@) == done);
            lemma_lines_before_append(done, Seq::empty(), marker@);
            assert(done + Seq::<Seq<char>>::empty() == done);
        }
    }
    out.push('\n');
    string_from_chars(out)
}

impl LovrError {
    /// The report shown for this error: its message, a blank line, and the
    /// frames of its own backtrace that come before the host's run closure.
    /// The backtrace's text is what `to_string` renders of it, which depends
    /// on the machine and the build.
    pub fn report(&self) -> (r: String)
        ensures
            exists|text: String|
                #[trigger] self.renders_backtrace(text) && r@ == report_text(
                    self.message(),
                    text@,
                ),
    {
        let backtrace = self.1.to_string();
        let r = error_report(self.0.as_str(), backtrace.as_str());
        assert(self.renders_backtrace(backtrace));
        r
    }
}

/// mlua's `Error`, the error type of Lua callbacks; opaque here.
#[verifier::external_type_specification]
#[verifier::external_body]
pub struct ExLuaError(mlua::Error);

/// The Lua runtime error that carries `message`.
pub uninterp spec fn runtime_error_of(message: Seq<char>) -> mlua::Error;

/// `mlua::Error::RuntimeError`: the Lua runtime error that carries
/// `message`; the result is named by the message it carries.
#[verifier::external_body]
fn lua_runtime_error(message: String) -> (r: mlua::Error)
    ensures
        r == runtime_error_of(message@),
{
    mlua::Error::RuntimeError(message)
}

/// A LÖVR error becomes the Lua runtime error that carries its report.
impl From<LovrError> for mlua::Error {
    fn from(err: LovrError) -> (r: mlua::Error)
        ensures
            exists|text: String|
                #[trigger] err.renders_backtrace(text) && r == runtime_error_of(
                    report_text(err.message(), text@),
                ),
    {
        lua_runtime_error(err.report())
    }
}

impl vstd::std_specs::convert::FromSpecImpl<LovrError> for mlua::Error {
    open spec fn obeys_from_spec() -> bool {
        false
    }

    open spec fn from_spec(v: LovrError) -> mlua::Error {
        vstd::pervasive::arbitrary()
    }
}

} // verus!
