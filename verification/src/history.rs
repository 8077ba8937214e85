//! The history of corrected sentences that is sent to the corrector as
//! context, so that a new sentence is corrected in the light of the last few.
use vstd::prelude::*;
use crate::text::{is_blank, trim, trim_seq, lemma_trim_idempotent};

verus! {

/// How many corrected sentences the history keeps.
pub const HISTORY_LIMIT: usize = 5;

/// A history is well formed when it holds at most `HISTORY_LIMIT` sentences,
/// each of them trimmed and not empty.
pub open spec fn history_wf(h: Seq<Seq<char>>) -> bool {
    &&& h.len() <= HISTORY_LIMIT
    &&& forall|i: int| 0 <= i < h.len() ==> #[trigger] trim_seq(h[i]) == h[i] && h[i].len() > 0
}

/// The history after a sentence is recorded: a blank sentence changes
/// nothing; otherwise the trimmed sentence is appended and only the last
/// `HISTORY_LIMIT` sentences are kept, oldest first.
pub open spec fn history_after(h: Seq<Seq<char>>, text: Seq<char>) -> Seq<Seq<char>> {
    let t = trim_seq(text);
    if t.len() == 0 {
        h
    } else {
        let n = h.push(t);
        if n.len() > HISTORY_LIMIT {
            n.subrange(n.len() - HISTORY_LIMIT, n.len() as int)
        } else {
            n
        }
    }
}

/// The views of a list of strings.
pub open spec fn strings_view(v: Seq<String>) -> Seq<Seq<char>> {
    v.map_values(|s: String| s@)
}

/// The previously corrected sentences, oldest first.
pub struct SentenceHistory {
    entries: Vec<String>,
}

impl View for SentenceHistory {
    type V = Seq<Seq<char>>;

    closed spec fn view(&self) -> Seq<Seq<char>> {
        strings_view(self.entries@)
    }
}

impl SentenceHistory {
    #[verifier::type_invariant]
    closed spec fn inv(self) -> bool {
        history_wf(self@)
    }
}

/// A fresh history, as the tool has it when it starts: empty.
pub fn history() -> (h: SentenceHistory)
    ensures
        h@ == Seq::<Seq<char>>::empty(),
{
    let h = SentenceHistory { entries: Vec::new() };
    assert(h@ =~= Seq::<Seq<char>>::empty());
    h
}

/// The sentences to send to the corrector as context: the whole history,
/// oldest first.
pub fn get_context(h: &SentenceHistory) -> (ctx: Vec<String>)
    ensures
        strings_view(ctx@) == h@,
        history_wf(h@),
{
    proof {
        use_type_invariant(h);
    }
    let mut ctx: Vec<String> = Vec::new();
    let n: usize = h.entries.len();
    let mut i: usize = 0;
    while i < n
        invariant
            n == h.entries@.len(),
            i <= n,
            strings_view(ctx@) =~= strings_view(h.entries@).subrange(0, i as int),
        decreases n - i,
    {
        let ghost prev = ctx@;
        assert(strings_view(prev).len() == prev.len());
        ctx.push(h.entries[i].clone());
        proof {
            assert forall|j: int| 0 <= j <= i implies #[trigger] strings_view(ctx@)[j]
                == strings_view(h.entries@)[j] by {
                if j < i {
                    assert(ctx@[j] == prev[j]);
                    assert(strings_view(prev)[j] == strings_view(h.entries@).subrange(0, i as int)[j]);
                }
            }
        }
        i = i + 1;
    }
    assert(strings_view(h.entries@).subrange(0, n as int) =~= strings_view(h.entries@));
    ctx
}

/// Records a sentence: blank text is ignored; otherwise its trimmed form is
/// appended and the oldest sentences beyond `HISTORY_LIMIT` are dropped.
pub fn push_history(h: &mut SentenceHistory, text: &str)
    ensures
        final(h)@ == history_after(old(h)@, text@),
        history_wf(final(h)@),
{
    proof {
        use_type_invariant(&*h);
        law_history_stays_well_formed(old(h)@, text@);
    }
    let t = trim(text);
    if t.is_empty() {
        return ;
    }
    let mut entries: Vec<String> = Vec::new();
    std::mem::swap(&mut entries, &mut h.entries);
    let ghost before = strings_view(entries@);
    entries.push(t.to_owned());
    let ghost pushed = before.push(t@);
    assert(strings_view(entries@) =~= pushed);
    assert(pushed.subrange(0, pushed.len() as int) =~= pushed);
    let ghost mut dropped: int = 0;
    while entries.len() > HISTORY_LIMIT
        invariant
            0 <= dropped <= pushed.len(),
            strings_view(entries@) =~= pushed.subrange(dropped, pushed.len() as int),
            pushed.len() <= HISTORY_LIMIT + 1,
            dropped == 0 || pushed.len() - dropped >= HISTORY_LIMIT,
        decreases entries.len(),
    {
        let ghost prev = entries@;
        assert(strings_view(prev).len() == prev.len());
        entries.remove(0);
        proof {
            assert(entries@ =~= prev.subrange(1, prev.len() as int));
            assert forall|i: int| 0 <= i < entries@.len() implies #[trigger] strings_view(
                entries@,
            )[i] == pushed[dropped + 1 + i] by {
                assert(strings_view(entries@)[i] == entries@[i]@);
                assert(entries@[i] == prev[i + 1]);
                assert(strings_view(prev)[i + 1] == prev[i + 1]@);
            }
            dropped = dropped + 1;
            assert(strings_view(entries@) =~= pushed.subrange(dropped, pushed.len() as int));
        }
    }
    assert(strings_view(entries@) == history_after(before, text@));
    h.entries = entries;
}

/// How the correction of a sentence begins.
pub enum CorrectionStart {
    /// The sentence is blank: it is the result as it stands; the corrector is
    /// not asked and the history is not touched.
    Unchanged { text: String },
    /// Ask the corrector, with these previous sentences as context.
    Ask { context: Vec<String> },
}

/// Begins the correction of `text`. A blank text is the result as it is,
/// without a request (the history, only read here, stays as it was).
/// Otherwise the corrector is to be asked with the whole history as context,
/// oldest first, when `use_context` is set, and with no context otherwise.
pub fn correction_context(h: &SentenceHistory, text: &str, use_context: bool) -> (r:
    CorrectionStart)
    ensures
        r is Unchanged <==> is_blank(text@),
        r matches CorrectionStart::Unchanged { text: t } ==> t@ == text@,
        r matches CorrectionStart::Ask { context } ==> strings_view(context@) == (if use_context {
            h@
        } else {
            Seq::<Seq<char>>::empty()
        }),
{
    if trim(text).is_empty() {
        return CorrectionStart::Unchanged { text: text.to_owned() };
    }
    if use_context {
        CorrectionStart::Ask { context: get_context(h) }
    } else {
        let v: Vec<String> = Vec::new();
        assert(strings_view(v@) =~= Seq::<Seq<char>>::empty());
        CorrectionStart::Ask { context: v }
    }
}

/// The sentence a correction ends with, recorded in the history: the
/// corrector's reply, or the original text when the corrector failed.
pub fn record_correction(h: &mut SentenceHistory, text: &str, reply: Result<String, String>) -> (out:
    String)
    ensures
        out@ == (match reply {
            Ok(c) => c@,
            Err(_) => text@,
        }),
        final(h)@ == history_after(old(h)@, out@),
{
    let out = match reply {
        Ok(c) => c,
        Err(_) => text.to_owned(),
    };
    push_history(h, out.as_str());
    out
}

/// Recording a sentence keeps every history well formed: at most
/// `HISTORY_LIMIT` sentences, each trimmed and not empty.
pub proof fn law_history_stays_well_formed(h: Seq<Seq<char>>, text: Seq<char>)
    requires
        history_wf(h),
    ensures
        history_wf(history_after(h, text)),
{
    let t = trim_seq(text);
    lemma_trim_idempotent(text);
    if t.len() > 0 {
        let n = h.push(t);
        let r = history_after(h, text);
        assert forall|i: int| 0 <= i < r.len() implies #[trigger] trim_seq(r[i]) == r[i]
            && r[i].len() > 0 by {
            if n.len() > HISTORY_LIMIT {
                assert(r[i] == n[i + n.len() - HISTORY_LIMIT]);
            } else {
                assert(r[i] == n[i]);
            }
        }
    }
}

/// Recording a sentence into a full history drops exactly the oldest one and
/// appends the new one at the end.
pub proof fn law_full_history_drops_oldest(h: Seq<Seq<char>>, text: Seq<char>)
    requires
        h.len() == HISTORY_LIMIT,
        !is_blank(text),
    ensures
        history_after(h, text) == h.drop_first().push(trim_seq(text)),
{
    assert(history_after(h, text) =~= h.drop_first().push(trim_seq(text)));
}

/// A blank sentence leaves the history as it was; any other sentence ends up
/// last, in trimmed form.
pub proof fn law_latest_sentence_is_last(h: Seq<Seq<char>>, text: Seq<char>)
    ensures
        is_blank(text) ==> history_after(h, text) == h,
        !is_blank(text) ==> history_after(h, text).last() == trim_seq(text),
{
}

} // verus!
