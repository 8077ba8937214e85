//! What the tool sends to the speech-to-text and correction service and how
//! it reads the replies: the correction prompt, the HTTP status handling and
//! the choice between reply, original text and error message.
use vstd::prelude::*;
use crate::history::strings_view;
use crate::text::{decimal, push_decimal, trim, trim_seq};

verus! {

/// The opening line of the correction prompt.
pub const PROMPT_HEAD: &'static str = "你是一個專業的中文語音轉文字校正助手。\n";

/// The heading of the context block in the correction prompt.
pub const CONTEXT_HEAD: &'static str = "前文（已校正過的內容，供參考以維持語意連貫）：\n";

/// The instructions of the correction prompt, which the sentence follows.
pub const PROMPT_RULES: &'static str = "請校正以下這句語音轉文字的內容：\n1. 修正錯別字與同音字（可參考前文判斷正確用字，例如「再/在」「的/得/地」「他/她/它」）\n2. 加上適當的標點符號\n3. 移除贅字和語氣詞（如：那個、就是、然後、嗯、啊、呃）\n4. 保持原意，不要改變內容，不要續寫，不要加評論\n5. 只輸出校正後的本句文字\n6. 一律輸出繁體中文\n7. 科技／AI 術語優先：API、LLM、GitHub、Whisper、prompt、token 等術語保留英文原文，不要翻譯\n\n本句原文：";

/// Lines joined with a line feed between each two.
pub open spec fn join_lines(lines: Seq<Seq<char>>) -> Seq<char>
    decreases lines.len(),
{
    if lines.len() == 0 {
        Seq::empty()
    } else if lines.len() == 1 {
        lines[0]
    } else {
        join_lines(lines.drop_last()) + "\n"@ + lines.last()
    }
}

/// The context block of the prompt: empty without context, otherwise the
/// heading, the sentences one per line, and a blank line.
pub open spec fn context_block(context: Seq<Seq<char>>) -> Seq<char> {
    if context.len() == 0 {
        Seq::empty()
    } else {
        CONTEXT_HEAD@ + join_lines(context) + "\n\n"@
    }
}

/// The correction prompt for `text` with the previous sentences `context`.
pub open spec fn correction_prompt_text(text: Seq<char>, context: Seq<Seq<char>>) -> Seq<char> {
    PROMPT_HEAD@ + context_block(context) + PROMPT_RULES@ + text
}

fn append_joined(p: &mut String, lines: &[String])
    ensures
        final(p)@ == old(p)@ + join_lines(strings_view(lines@)),
{
    let ghost start = p@;
    let ghost all = strings_view(lines@);
    let n: usize = lines.len();
    let mut i: usize = 0;
    assert(all.take(0) =~= Seq::<Seq<char>>::empty());
    assert(start + join_lines(all.take(0)) =~= start);
    while i < n
        invariant
            n == lines@.len(),
            all == strings_view(lines@),
            i <= n,
            p@ == start + join_lines(all.take(i as int)),
        decreases n - i,
    {
        let ghost before = p@;
        if i > 0 {
            p.append("\n");
        }
        p.append(lines[i].as_str());
        proof {
            let t = all.take(i + 1);
            assert(t.drop_last() =~= all.take(i as int));
            assert(t.last() == lines@[i as int]@);
            if i == 0 {
                assert(join_lines(t) == t[0]);
                assert(p@ =~= start + join_lines(t));
            } else {
                assert(p@ =~= start + join_lines(all.take(i as int)) + "\n"@ + t.last());
            }
        }
        i = i + 1;
    }
    assert(all.take(n as int) =~= all);
}

/// The prompt that asks the corrector to fix `text`, with the previous
/// corrected sentences `context` (oldest first) as a block before the rules.
pub fn correction_prompt(text: &str, context: &[String]) -> (p: String)
    ensures
        p@ == correction_prompt_text(text@, strings_view(context@)),
        context@.len() == 0 ==> p@ == PROMPT_HEAD@ + PROMPT_RULES@ + text@,
        context@.len() > 0 ==> p@ == PROMPT_HEAD@ + CONTEXT_HEAD@ + join_lines(
            strings_view(context@),
        ) + "\n\n"@ + PROMPT_RULES@ + text@,
{
    let mut p = PROMPT_HEAD.to_owned();
    if context.len() > 0 {
        p.append(CONTEXT_HEAD);
        append_joined(&mut p, context);
        p.append("\n\n");
    }
    p.append(PROMPT_RULES);
    p.append(text);
    proof {
        if context@.len() == 0 {
            assert(strings_view(context@).len() == 0);
        }
        assert(p@ =~= correction_prompt_text(text@, strings_view(context@)));
    }
    p
}

/// The standard reason phrase of an HTTP status code, where it has one.
pub uninterp spec fn canonical_reason(code: u16) -> Option<Seq<char>>;

/// `StatusCode::canonical_reason` of the `http` crate (re-exported by
/// `reqwest`): the claim is that it gives the same phrase for the same code,
/// named `canonical_reason`, and nothing more about the phrase.
#[verifier::external_body]
fn status_reason(code: u16) -> (r: Option<String>)
    requires
        100 <= code <= 999,
    ensures
        match r {
            Some(s) => canonical_reason(code) == Some(s@),
            None => canonical_reason(code) is None,
        },
{
    match reqwest::StatusCode::from_u16(code) {
        Ok(status) => status.canonical_reason().map(String::from),
        Err(_) => None,
    }
}

/// `StatusCode::is_success` of the `http` crate: the claim is what its source
/// shows, that the codes 200 to 299 are the successful ones.
#[verifier::external_body]
fn status_is_success(code: u16) -> (r: bool)
    requires
        100 <= code <= 999,
    ensures
        r == (200 <= code < 300),
{
    match reqwest::StatusCode::from_u16(code) {
        Ok(status) => status.is_success(),
        Err(_) => false,
    }
}

/// A status line built from a code and its reason phrase, if any.
pub open spec fn status_line_with(code: u16, reason: Option<Seq<char>>) -> Seq<char> {
    decimal(code as nat) + " "@ + match reason {
        Some(r) => r,
        None => "<unknown status code>"@,
    }
}

/// Renders a status code with the reason phrase given for it: the number, a
/// space and the phrase, or a placeholder where there is no phrase.
pub fn format_status(code: u16, reason: Option<&str>) -> (s: String)
    ensures
        s@ == status_line_with(
            code,
            match reason {
                Some(r) => Some(r@),
                None => None,
            },
        ),
{
    let mut s = String::new();
    push_decimal(&mut s, code as u128);
    s.append(" ");
    match reason {
        Some(r) => s.append(r),
        None => s.append("<unknown status code>"),
    }
    proof {
        assert(s@ =~= status_line_with(
            code,
            match reason {
                Some(r) => Some(r@),
                None => None,
            },
        ));
    }
    s
}

/// How a status code reads in an error message: the number, a space and its
/// standard reason phrase, or a placeholder for a code without one.
pub open spec fn status_line(code: u16) -> Seq<char> {
    status_line_with(code, canonical_reason(code))
}

/// The status code rendered as in an error message, with its standard reason
/// phrase.
pub fn status_text(code: u16) -> (s: String)
    requires
        100 <= code <= 999,
    ensures
        s@ == status_line(code),
{
    let reason = status_reason(code);
    match reason {
        Some(r) => format_status(code, Some(r.as_str())),
        None => format_status(code, None),
    }
}

/// The views of a result of strings.
pub open spec fn result_view(r: Result<String, String>) -> Result<Seq<char>, Seq<char>> {
    match r {
        Ok(s) => Ok(s@),
        Err(e) => Err(e@),
    }
}

/// What a transcription request ends with: an error carrying the status and
/// body when the status is not a success, an error carrying the parser's
/// message when the body is not the expected JSON, and the text otherwise.
pub open spec fn transcription_outcome_spec(
    status: u16,
    body: Seq<char>,
    parsed: Result<Seq<char>, Seq<char>>,
) -> Result<Seq<char>, Seq<char>> {
    if !(200 <= status < 300) {
        Err("API error ("@ + status_line(status) + "): "@ + body)
    } else {
        match parsed {
            Ok(t) => Ok(t),
            Err(e) => Err("JSON parse error: "@ + e),
        }
    }
}

/// Reads the transcription service's reply: its status code, its body, and
/// the `text` field parsed out of the body (or the parser's message).
pub fn transcription_outcome(status: u16, body: &str, parsed: Result<String, String>) -> (r: Result<
    String,
    String,
>)
    requires
        100 <= status <= 999,
    ensures
        result_view(r) == transcription_outcome_spec(status, body@, result_view(parsed)),
        200 <= status < 300 ==> (parsed matches Ok(t) ==> (r matches Ok(u) && u@ == t@)),
        200 <= status < 300 ==> (parsed matches Err(m) ==> (r matches Err(e) && e@
            == "JSON parse error: "@ + m@)),
        !(200 <= status < 300) ==> (r matches Err(e) && e@ == "API error ("@ + status_line(status)
            + "): "@ + body@),
{
    if !status_is_success(status) {
        let mut e = "API error (".to_owned();
        let st = status_text(status);
        e.append(st.as_str());
        e.append("): ");
        e.append(body);
        proof {
            assert(e@ =~= "API error ("@ + status_line(status) + "): "@ + body@);
        }
        return Err(e);
    }
    match parsed {
        Ok(t) => Ok(t),
        Err(msg) => {
            let mut e = "JSON parse error: ".to_owned();
            e.append(msg.as_str());
            Err(e)
        },
    }
}

/// What a correction request ends with: the original text when the status is
/// not a success, an error carrying the parser's message when the body is not
/// the expected JSON, the first choice trimmed when there is one, and the
/// original text when there is none.
pub open spec fn correction_outcome_spec(
    text: Seq<char>,
    status: u16,
    parsed: Result<Seq<Seq<char>>, Seq<char>>,
) -> Result<Seq<char>, Seq<char>> {
    if !(200 <= status < 300) {
        Ok(text)
    } else {
        match parsed {
            Err(e) => Err("LLM JSON error: "@ + e),
            Ok(choices) => if choices.len() > 0 {
                Ok(trim_seq(choices[0]))
            } else {
                Ok(text)
            },
        }
    }
}

/// The views of a parsed list of choices, or of the parser's message.
pub open spec fn choices_view(r: Result<Vec<String>, String>) -> Result<Seq<Seq<char>>, Seq<char>> {
    match r {
        Ok(v) => Ok(strings_view(v@)),
        Err(e) => Err(e@),
    }
}

/// Reads the corrector's reply to the correction of `text`: its status code
/// and the contents of its choices in order (or the parser's message).
pub fn correction_outcome(text: &str, status: u16, parsed: Result<Vec<String>, String>) -> (r: Result<
    String,
    String,
>)
    requires
        100 <= status <= 999,
    ensures
        result_view(r) == correction_outcome_spec(text@, status, choices_view(parsed)),
        !(200 <= status < 300) ==> (r matches Ok(u) && u@ == text@),
        200 <= status < 300 ==> (parsed matches Ok(v) ==> (v@.len() > 0 ==> (r matches Ok(u)
            && u@ == trim_seq(v@[0]@)))),
        200 <= status < 300 ==> (parsed matches Ok(v) ==> (v@.len() == 0 ==> (r matches Ok(u)
            && u@ == text@))),
        200 <= status < 300 ==> (parsed matches Err(m) ==> (r matches Err(e) && e@
            == "LLM JSON error: "@ + m@)),
{
    if !status_is_success(status) {
        return Ok(text.to_owned());
    }
    match parsed {
        Err(msg) => {
            let mut e = "LLM JSON error: ".to_owned();
            e.append(msg.as_str());
            Err(e)
        },
        Ok(choices) => {
            if choices.len() > 0 {
                assert(strings_view(choices@)[0] == choices@[0]@);
                Ok(trim(choices[0].as_str()).to_owned())
            } else {
                Ok(text.to_owned())
            }
        },
    }
}

/// The corrector's reply to a successful request is its first choice,
/// trimmed, whenever it has any choice at all (one choice is the usual
/// reply); the original text comes back only when there is no choice, or when
/// the request did not succeed; a body that is not the expected JSON gives the
/// parser's message.
pub proof fn law_correction_uses_first_choice(
    text: Seq<char>,
    status: u16,
    choices: Seq<Seq<char>>,
    message: Seq<char>,
)
    ensures
        200 <= status < 300 && choices.len() > 0 ==> correction_outcome_spec(
            text,
            status,
            Ok(choices),
        ) == Ok::<Seq<char>, Seq<char>>(trim_seq(choices[0])),
        200 <= status < 300 && choices.len() == 0 ==> correction_outcome_spec(
            text,
            status,
            Ok(choices),
        ) == Ok::<Seq<char>, Seq<char>>(text),
        200 <= status < 300 ==> correction_outcome_spec(text, status, Err(message)) == Err::<
            Seq<char>,
            Seq<char>,
        >("LLM JSON error: "@ + message),
        !(200 <= status < 300) ==> correction_outcome_spec(text, status, Ok(choices)) == Ok::<
            Seq<char>,
            Seq<char>,
        >(text) && correction_outcome_spec(text, status, Err(message)) == Ok::<
            Seq<char>,
            Seq<char>,
        >(text),
        forall|c: Seq<char>|
            200 <= status < 300 ==> #[trigger] correction_outcome_spec(text, status, Ok(seq![c]))
                == Ok::<Seq<char>, Seq<char>>(trim_seq(c)),
{
}

/// A successful transcription gives back exactly the parsed text, whatever
/// its length; a failed status gives an error naming the status and the body;
/// a body that is not the expected JSON gives the parser's message.
pub proof fn law_transcription_keeps_text(
    status: u16,
    body: Seq<char>,
    text: Seq<char>,
    message: Seq<char>,
)
    ensures
        200 <= status < 300 ==> transcription_outcome_spec(status, body, Ok(text)) == Ok::<
            Seq<char>,
            Seq<char>,
        >(text),
        200 <= status < 300 ==> transcription_outcome_spec(status, body, Err(message)) == Err::<
            Seq<char>,
            Seq<char>,
        >("JSON parse error: "@ + message),
        !(200 <= status < 300) ==> transcription_outcome_spec(status, body, Ok(text)) == Err::<
            Seq<char>,
            Seq<char>,
        >("API error ("@ + status_line(status) + "): "@ + body),
{
}

/// Where line `i` of the joined lines starts: after every earlier line and
/// its line feed.
pub open spec fn line_offset(lines: Seq<Seq<char>>, i: int) -> int
    decreases i,
{
    if i <= 0 {
        0
    } else {
        line_offset(lines, i - 1) + lines[i - 1].len() + 1
    }
}

/// Joined lines hold every line, in order, each at its offset and followed by
/// a line feed except the last, and nothing more.
pub proof fn law_join_lines_holds_every_line(lines: Seq<Seq<char>>)
    ensures
        lines.len() > 0 ==> join_lines(lines).len() == line_offset(lines, lines.len() - 1)
            + lines.last().len(),
        forall|i: int|
            0 <= i < lines.len() ==> join_lines(lines).subrange(
                line_offset(lines, i),
                line_offset(lines, i) + lines[i].len(),
            ) == #[trigger] lines[i],
        forall|i: int|
            0 <= i < lines.len() - 1 ==> join_lines(lines)[line_offset(lines, i) + lines[i].len()]
                == '\n',
{
    if lines.len() > 0 {
        lemma_join_len(lines);
    }
    assert forall|i: int| 0 <= i < lines.len() implies join_lines(lines).subrange(
        line_offset(lines, i),
        line_offset(lines, i) + lines[i].len(),
    ) == #[trigger] lines[i] by {
        lemma_line_at(lines, i);
    }
    assert forall|i: int| 0 <= i < lines.len() - 1 implies join_lines(lines)[line_offset(lines, i)
        + lines[i].len()] == '\n' by {
        lemma_line_at(lines, i);
    }
}

/// Line `i` stands at its offset in the joined lines, followed by a line feed
/// unless it is the last.
proof fn lemma_line_at(lines: Seq<Seq<char>>, i: int)
    requires
        0 <= i < lines.len(),
    ensures
        join_lines(lines).subrange(line_offset(lines, i), line_offset(lines, i) + lines[i].len())
            == lines[i],
        i < lines.len() - 1 ==> join_lines(lines)[line_offset(lines, i) + lines[i].len()] == '\n',
    decreases lines.len(),
{
    reveal_strlit("\n");
    if lines.len() == 1 {
        assert(join_lines(lines) == lines[0]);
        assert(join_lines(lines).subrange(0, lines[0].len() as int) =~= lines[0]);
    } else {
        let init = lines.drop_last();
        let j = join_lines(lines);
        let ji = join_lines(init);
        assert(j == ji + "\n"@ + lines.last());
        assert forall|k: int| 0 <= k < init.len() implies init[k] == lines[k] by {}
        lemma_join_len(init);
        lemma_line_offset_prefix(lines, init, init.len() - 1);
        if i < init.len() {
            lemma_line_at(init, i);
            lemma_line_offset_prefix(lines, init, i);
            lemma_line_offset_bound(init, i);
            lemma_line_offset_nonneg(init, i);
            let a = line_offset(init, i);
            let b = a + init[i].len();
            assert(j.subrange(a, b) =~= ji.subrange(a, b));
            if i < init.len() - 1 {
                assert(j[b] == ji[b]);
            } else {
                assert(b == ji.len());
                assert(j[b] == '\n');
            }
        } else {
            assert(line_offset(lines, i) == ji.len() + 1);
            let st: int = (ji.len() + 1) as int;
            assert(j.subrange(st, st + lines[i].len()) =~= lines.last());
        }
    }
}

proof fn lemma_line_offset_nonneg(lines: Seq<Seq<char>>, i: int)
    ensures
        line_offset(lines, i) >= 0,
    decreases i,
{
    if i > 0 {
        lemma_line_offset_nonneg(lines, i - 1);
    }
}

proof fn lemma_line_offset_prefix(lines: Seq<Seq<char>>, init: Seq<Seq<char>>, i: int)
    requires
        init.len() <= lines.len(),
        forall|k: int| 0 <= k < init.len() ==> init[k] == lines[k],
        0 <= i <= init.len(),
    ensures
        line_offset(lines, i) == line_offset(init, i),
    decreases i,
{
    if i > 0 {
        lemma_line_offset_prefix(lines, init, i - 1);
    }
}

proof fn lemma_line_offset_bound(lines: Seq<Seq<char>>, i: int)
    requires
        0 <= i < lines.len(),
    ensures
        line_offset(lines, i) + lines[i].len() <= join_lines(lines).len(),
        i < lines.len() - 1 ==> line_offset(lines, i) + lines[i].len() < join_lines(
            lines,
        ).len(),
    decreases lines.len(),
{
    reveal_strlit("\n");
    if lines.len() > 1 {
        let init = lines.drop_last();
        assert(join_lines(lines) == join_lines(init) + "\n"@ + lines.last());
        if i < init.len() {
            lemma_line_offset_bound(init, i);
            assert forall|k: int| 0 <= k < init.len() implies init[k] == lines[k] by {}
            lemma_line_offset_prefix(lines, init, i);
        } else {
            assert forall|k: int| 0 <= k < init.len() implies init[k] == lines[k] by {}
            lemma_line_offset_prefix(lines, init, i);
            lemma_join_len(init);
        }
    }
}

proof fn lemma_join_len(lines: Seq<Seq<char>>)
    requires
        lines.len() > 0,
    ensures
        join_lines(lines).len() == line_offset(lines, lines.len() - 1) + lines.last().len(),
    decreases lines.len(),
{
    reveal_strlit("\n");
    if lines.len() > 1 {
        let init = lines.drop_last();
        lemma_join_len(init);
        assert forall|k: int| 0 <= k < init.len() implies init[k] == lines[k] by {}
        lemma_line_offset_prefix(lines, init, init.len() - 1);
    }
}

/// The prompt puts the earlier sentences before the rules whenever there are
/// any: the heading, the sentences one per line, oldest first, and a blank
/// line; with one earlier sentence `s` that is the heading, `s` and a blank
/// line. Only an empty context leaves the block out.
pub proof fn law_prompt_lists_context(text: Seq<char>, context: Seq<Seq<char>>)
    ensures
        context.len() == 0 ==> correction_prompt_text(text, context) == PROMPT_HEAD@
            + PROMPT_RULES@ + text,
        context.len() > 0 ==> correction_prompt_text(text, context) == PROMPT_HEAD@
            + CONTEXT_HEAD@ + join_lines(context) + "\n\n"@ + PROMPT_RULES@ + text,
        forall|s: Seq<char>|
            #[trigger] correction_prompt_text(text, seq![s]) == PROMPT_HEAD@ + CONTEXT_HEAD@ + s
                + "\n\n"@ + PROMPT_RULES@ + text,
{
    assert forall|s: Seq<char>| #[trigger] correction_prompt_text(text, seq![s]) == PROMPT_HEAD@
        + CONTEXT_HEAD@ + s + "\n\n"@ + PROMPT_RULES@ + text by {
        assert(join_lines(seq![s]) == s);
        assert(correction_prompt_text(text, seq![s]) =~= PROMPT_HEAD@ + CONTEXT_HEAD@ + s
            + "\n\n"@ + PROMPT_RULES@ + text);
    }
    if context.len() == 0 {
        assert(correction_prompt_text(text, context) =~= PROMPT_HEAD@ + PROMPT_RULES@ + text);
    } else {
        assert(correction_prompt_text(text, context) =~= PROMPT_HEAD@ + CONTEXT_HEAD@
            + join_lines(context) + "\n\n"@ + PROMPT_RULES@ + text);
    }
}

} // verus!
