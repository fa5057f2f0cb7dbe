use vstd::prelude::*;
use vstd::string::*;
use crate::text::{char_to_string, chars_of, string_of};

verus! {

#[verifier::external_type_specification]
#[verifier::external_body]
#[verifier::reject_recursive_types(T)]
pub struct ExNucleo<T: Sync + Send + 'static>(nucleo::Nucleo<T>);

/// The texts of the matched items of the matcher's current snapshot, in
/// ranking order.
pub uninterp spec fn snapshot_matches(n: nucleo::Nucleo<String>) -> Seq<Seq<char>>;

/// The texts of the items the matcher holds (pushed since it was made or
/// last restarted), in the order they were pushed.
pub uninterp spec fn engine_items(n: nucleo::Nucleo<String>) -> Seq<Seq<char>>;

/// The text last parsed into the matcher's pattern column (empty at first).
pub uninterp spec fn engine_pattern(n: nucleo::Nucleo<String>) -> Seq<char>;

/// The characters that `char::to_lowercase` yields for `c`.
pub uninterp spec fn char_lowercase(c: char) -> Seq<char>;

/// Relies on `nucleo::Nucleo::new`: a fresh matcher over one column, with
/// the default configuration, no items, an empty pattern and an empty
/// snapshot.
#[verifier::external_body]
fn new_nucleo() -> (r: nucleo::Nucleo<String>)
    ensures
        snapshot_matches(r).len() == 0,
        engine_items(r).len() == 0,
        engine_pattern(r).len() == 0,
{
    nucleo::Nucleo::new(nucleo::Config::DEFAULT, std::sync::Arc::new(|| {}), None, 1)
}

/// Relies on `nucleo::Injector::push` (through `Nucleo::injector`): the
/// item is appended to the matcher's items; the pattern stays, and the
/// snapshot only changes on a tick.
#[verifier::external_body]
fn inject(n: &mut nucleo::Nucleo<String>, item: String)
    ensures
        engine_items(*final(n)) == engine_items(*old(n)).push(item@),
        engine_pattern(*final(n)) == engine_pattern(*old(n)),
        snapshot_matches(*final(n)) == snapshot_matches(*old(n)),
{
    n.injector().push(item, |s, cols| {
        cols[0] = s.as_str().into();
    });
}

/// Relies on `nucleo::Nucleo::tick`: the worker may publish a new snapshot
/// (`Snapshot::update` takes the worker's matches over the current items,
/// which `restart` replaces); reports whether it did. Items and pattern
/// stay, and every match is one of the items.
#[verifier::external_body]
fn tick_nucleo(n: &mut nucleo::Nucleo<String>, timeout: u64) -> (changed: bool)
    ensures
        engine_items(*final(n)) == engine_items(*old(n)),
        engine_pattern(*final(n)) == engine_pattern(*old(n)),
        forall|i: int|
            0 <= i < snapshot_matches(*final(n)).len() ==> engine_items(*final(n)).contains(
                #[trigger] snapshot_matches(*final(n))[i],
            ),
{
    n.tick(timeout).changed
}

/// Relies on `nucleo::Nucleo::restart` with `clear_snapshot`: the items are
/// replaced by an empty list and the snapshot's matches are dropped at once;
/// the pattern stays.
#[verifier::external_body]
fn restart_nucleo(n: &mut nucleo::Nucleo<String>)
    ensures
        snapshot_matches(*final(n)).len() == 0,
        engine_items(*final(n)).len() == 0,
        engine_pattern(*final(n)) == engine_pattern(*old(n)),
{
    n.restart(true);
}

/// Relies on `nucleo::pattern::MultiPattern::reparse` on column 0 with smart
/// case matching and smart normalization: only the pattern changes, the
/// snapshot waits for the next tick. `append` promises that the previous
/// text is a prefix of the new one.
#[verifier::external_body]
fn reparse_nucleo(n: &mut nucleo::Nucleo<String>, pattern: &str, append: bool)
    requires
        append ==> engine_pattern(*old(n)).len() <= pattern@.len() && pattern@.subrange(
            0,
            engine_pattern(*old(n)).len() as int,
        ) == engine_pattern(*old(n)),
    ensures
        engine_pattern(*final(n)) == pattern@,
        engine_items(*final(n)) == engine_items(*old(n)),
        snapshot_matches(*final(n)) == snapshot_matches(*old(n)),
{
    n.pattern.reparse(
        0,
        pattern,
        nucleo::pattern::CaseMatching::Smart,
        nucleo::pattern::Normalization::Smart,
        append,
    );
}

/// Relies on `nucleo::Snapshot::matched_item_count`: the number of matches.
#[verifier::external_body]
fn matched_count(n: &nucleo::Nucleo<String>) -> (r: u32)
    ensures
        r as int == snapshot_matches(*n).len(),
{
    n.snapshot().matched_item_count()
}

/// Relies on `nucleo::Snapshot::get_matched_item`: the text of the `i`-th
/// match, present for every index below the match count.
#[verifier::external_body]
fn matched_item(n: &nucleo::Nucleo<String>, i: u32) -> (r: Option<String>)
    ensures
        i < snapshot_matches(*n).len() ==> r is Some && r->Some_0@ == snapshot_matches(*n)[i as int],
        i >= snapshot_matches(*n).len() ==> r is None,
{
    n.snapshot().get_matched_item(i).map(|item| item.data.clone())
}

/// Relies on `char::to_lowercase`, collected into a string.
#[verifier::external_body]
fn lowercase_of(c: char) -> (r: String)
    ensures
        r@ == char_lowercase(c),
{
    c.to_lowercase().collect()
}

/// Two characters are the same letter when their lowercase forms agree.
pub open spec fn same_letter(a: char, b: char) -> bool {
    char_lowercase(a) == char_lowercase(b)
}

/// How many pattern characters a left-to-right scan has matched after the
/// first `i` characters of `t`.
pub open spec fn consumed(t: Seq<char>, p: Seq<char>, i: int) -> int
    decreases i,
{
    if i <= 0 {
        0
    } else {
        let j = consumed(t, p, i - 1);
        if j < p.len() && same_letter(t[i - 1], p[j]) {
            j + 1
        } else {
            j
        }
    }
}

/// Whether character `i` of `t` is marked as matching the next pattern
/// character.
pub open spec fn marked(t: Seq<char>, p: Seq<char>, i: int) -> bool {
    let j = consumed(t, p, i);
    j < p.len() && same_letter(t[i], p[j])
}

/// The spans of `t[0..i]`: each marked character alone and highlighted, each
/// maximal run of unmarked characters as one plain span.
pub open spec fn spans_upto(t: Seq<char>, p: Seq<char>, i: int) -> Seq<(Seq<char>, bool)>
    decreases i,
{
    if i <= 0 {
        Seq::empty()
    } else {
        let prev = spans_upto(t, p, i - 1);
        let c = t[i - 1];
        if marked(t, p, i - 1) {
            prev.push((seq![c], true))
        } else if prev.len() > 0 && !prev.last().1 {
            prev.update(prev.len() - 1, (prev.last().0.push(c), false))
        } else {
            prev.push((seq![c], false))
        }
    }
}

/// The highlighted form of `t` under pattern `p`; an empty pattern gives the
/// whole text as one plain span.
pub open spec fn highlight(t: Seq<char>, p: Seq<char>) -> Seq<(Seq<char>, bool)> {
    if p.len() == 0 {
        seq![(t, false)]
    } else {
        spans_upto(t, p, t.len() as int)
    }
}

/// `t` cut to fit `width` columns: when it has at least `width` characters,
/// its first `⌊(width-9)/2⌋` and last `⌈(width-9)/2⌉` characters around
/// `...`.
pub open spec fn truncated(t: Seq<char>, width: int) -> Seq<char> {
    if t.len() < width {
        t
    } else {
        let avail = if width >= 9 {
            width - 9
        } else {
            0
        };
        let front = avail / 2;
        let back = avail - front;
        t.subrange(0, front) + "..."@ + t.subrange(t.len() - back, t.len() as int)
    }
}

/// A truncated text never exceeds the width it was cut for.
pub proof fn lemma_truncated_fits(t: Seq<char>, width: int)
    requires
        width >= 9,
    ensures
        truncated(t, width).len() <= width,
{
    reveal_strlit("...");
}

/// How many result lines a window of `height` lines starting at `offset`
/// shows out of `count` matches.
pub open spec fn window_len(count: int, offset: int, height: int) -> int {
    if offset >= count {
        0
    } else if height <= count - offset {
        height
    } else {
        count - offset
    }
}

/// A piece of a displayed result line.
#[derive(Debug)]
pub struct Span {
    pub text: String,
    pub highlighted: bool,
}

pub open spec fn spans_view(v: Seq<Span>) -> Seq<(Seq<char>, bool)> {
    v.map_values(|s: Span| (s.text@, s.highlighted))
}

/// Cuts `text` to fit `width` columns (see `truncated`).
pub fn truncate_text(text: String, width: u16) -> (r: String)
    ensures
        r@ == truncated(text@, width as int),
{
    let n = text.as_str().unicode_len();
    if n < width as usize {
        return text;
    }
    let available_chars = width.saturating_sub(9) as usize;
    let front = available_chars / 2;
    let back = available_chars - front;
    let chars = chars_of(text.as_str());
    let first_half = string_of(&chars, 0, front);
    let second_half = string_of(&chars, n - back, n);
    let r = first_half.concat("...").concat(second_half.as_str());
    r
}

fn letters_agree(a: char, b: char) -> (r: bool)
    ensures
        r == same_letter(a, b),
{
    let la = lowercase_of(a);
    let lb = lowercase_of(b);
    la == lb
}

/// The matcher's state as the library sees it: the items handed to it since
/// the last restart, and the pattern it was last asked to filter by.
pub struct MatcherModel {
    pub corpus: Seq<Seq<char>>,
    pub pattern: Seq<char>,
}

/// The operations that change a matcher.
pub enum MatcherOp {
    Push(Seq<char>),
    Reparse(Seq<char>),
    Tick,
    Restart,
}

pub open spec fn apply_op(m: MatcherModel, op: MatcherOp) -> MatcherModel {
    match op {
        MatcherOp::Push(s) => MatcherModel { corpus: m.corpus.push(s), ..m },
        MatcherOp::Reparse(p) => MatcherModel { pattern: p, ..m },
        MatcherOp::Tick => m,
        MatcherOp::Restart => MatcherModel { corpus: Seq::empty(), ..m },
    }
}

pub open spec fn apply_ops(m: MatcherModel, ops: Seq<MatcherOp>) -> MatcherModel
    decreases ops.len(),
{
    if ops.len() == 0 {
        m
    } else {
        apply_op(apply_ops(m, ops.drop_last()), ops.last())
    }
}

/// Until a restart, the ingested items only grow: whatever was ingested
/// stays, in its order, and more may follow.
pub proof fn lemma_corpus_grows_until_restart(m: MatcherModel, ops: Seq<MatcherOp>)
    requires
        forall|i: int| 0 <= i < ops.len() ==> !(ops[i] is Restart),
    ensures
        apply_ops(m, ops).corpus.len() >= m.corpus.len(),
        apply_ops(m, ops).corpus.subrange(0, m.corpus.len() as int) == m.corpus,
    decreases ops.len(),
{
    if ops.len() > 0 {
        let rest = ops.drop_last();
        assert forall|i: int| 0 <= i < rest.len() implies !(rest[i] is Restart) by {
            assert(rest[i] == ops[i]);
        }
        lemma_corpus_grows_until_restart(m, rest);
        let before = apply_ops(m, rest);
        assert(!(ops[ops.len() - 1] is Restart));
        if let MatcherOp::Push(s) = ops.last() {
            assert(before.corpus.push(s).subrange(0, m.corpus.len() as int)
                =~= before.corpus.subrange(0, m.corpus.len() as int));
        }
    }
}

/// Filtering twice by the same pattern is filtering once.
pub proof fn lemma_reparse_idempotent(m: MatcherModel, p: Seq<char>)
    ensures
        apply_op(apply_op(m, MatcherOp::Reparse(p)), MatcherOp::Reparse(p)) == apply_op(
            m,
            MatcherOp::Reparse(p),
        ),
{
}

/// Ticks handed to the matcher's worker, in milliseconds.
pub const MATCHER_TICK_RATE: u64 = 2;

/// A streaming fuzzy index over the found paths.
pub struct Matcher {
    inner: nucleo::Nucleo<String>,
    last_pattern: String,
    changed: bool,
}

impl Matcher {
    /// The items the engine holds and the pattern it filters by.
    pub closed spec fn model(&self) -> MatcherModel {
        MatcherModel { corpus: engine_items(self.inner), pattern: engine_pattern(self.inner) }
    }

    /// The pattern kept beside the engine is the one it last parsed.
    pub closed spec fn wf(&self) -> bool {
        self.last_pattern@ == engine_pattern(self.inner)
    }

    /// Whether the last tick reported a new snapshot.
    pub closed spec fn tick_changed(&self) -> bool {
        self.changed
    }

    /// The matched items of the current snapshot, in ranking order.
    pub closed spec fn matches(&self) -> Seq<Seq<char>> {
        snapshot_matches(self.inner)
    }

    /// The matching engine itself, to say when a call leaves it untouched.
    pub closed spec fn engine(&self) -> nucleo::Nucleo<String> {
        self.inner
    }

    pub fn new() -> (r: Matcher)
        ensures
            r.model().corpus.len() == 0,
            r.model().pattern.len() == 0,
            r.matches().len() == 0,
            r.wf(),
    {
        let r = Matcher { inner: new_nucleo(), last_pattern: String::new(), changed: false };
        assert(r.last_pattern@ =~= engine_pattern(r.inner));
        r
    }

    pub fn is_empty(&self) -> (r: bool)
        ensures
            r == (self.matches().len() == 0),
    {
        matched_item(&self.inner, 0).is_none()
    }

    /// The text of the `index`-th match of the snapshot.
    pub fn get_item(&self, index: usize) -> (r: Option<String>)
        ensures
            index < self.matches().len() ==> r is Some && r->Some_0@ == self.matches()[index as int],
            index >= self.matches().len() ==> r is None,
    {
        let count = matched_count(&self.inner);
        if index >= count as usize {
            return None;
        }
        matched_item(&self.inner, index as u32)
    }

    pub fn get_matched_items_count(&self) -> (r: u32)
        ensures
            r as int == self.matches().len(),
    {
        matched_count(&self.inner)
    }

    /// Gives the worker a time slice of `MATCHER_TICK_RATE` milliseconds;
    /// the snapshot may change, and whatever it then holds are items pushed
    /// since the last restart.
    pub fn tick(&mut self)
        ensures
            final(self).model() == apply_op(old(self).model(), MatcherOp::Tick),
            old(self).wf() ==> final(self).wf(),
            forall|i: int|
                0 <= i < final(self).matches().len() ==> final(self).model().corpus.contains(
                    #[trigger] final(self).matches()[i],
                ),
            final(self).model().corpus.len() == 0 ==> final(self).matches().len() == 0,
    {
        self.changed = tick_nucleo(&mut self.inner, MATCHER_TICK_RATE);
        proof {
            if engine_items(self.inner).len() == 0 && snapshot_matches(self.inner).len() > 0 {
                assert(engine_items(self.inner).contains(snapshot_matches(self.inner)[0]));
            }
        }
    }

    /// Whether the last tick published a new snapshot.
    pub fn changed(&self) -> (r: bool)
        ensures
            r == self.tick_changed(),
    {
        self.changed
    }

    /// Drops every ingested item and match.
    pub fn restart(&mut self)
        ensures
            final(self).model() == apply_op(old(self).model(), MatcherOp::Restart),
            final(self).matches().len() == 0,
            old(self).wf() ==> final(self).wf(),
    {
        restart_nucleo(&mut self.inner);
        assert(engine_items(self.inner) =~= Seq::<Seq<char>>::empty());
    }

    /// Ingests one found path.
    pub fn push(&mut self, search_result: String)
        ensures
            final(self).model() == apply_op(old(self).model(), MatcherOp::Push(search_result@)),
            final(self).matches() == old(self).matches(),
            old(self).wf() ==> final(self).wf(),
    {
        inject(&mut self.inner, search_result);
    }

    /// Filters by `current_pattern`; a pattern equal to the last one leaves
    /// the matcher untouched, and one that extends it lets the worker narrow
    /// the previous matches.
    pub fn find_fuzzy_match(&mut self, current_pattern: &str)
        requires
            old(self).wf(),
        ensures
            final(self).wf(),
            final(self).model() == apply_op(
                old(self).model(),
                MatcherOp::Reparse(current_pattern@),
            ),
            final(self).matches() == old(self).matches(),
            old(self).model().pattern == current_pattern@ ==> final(self).engine() == old(self).engine(),
    {
        let pattern_text = String::from_str(current_pattern);
        if pattern_text != self.last_pattern {
            let chars = chars_of(current_pattern);
            let last = chars_of(self.last_pattern.as_str());
            let append = last.len() <= chars.len() && starts_with(&chars, &last);
            reparse_nucleo(&mut self.inner, current_pattern, append);
            self.last_pattern = pattern_text;
        }
    }

    /// Splits `text` into plain and highlighted spans: scanning left to right,
    /// each character that equals the next unmatched pattern character, ignoring
    /// case, is highlighted on its own.
    pub fn highlight_fuzzy_match(&self, text: &str, pattern: &str) -> (r: Vec<Span>)
        ensures
            spans_view(r@) == highlight(text@, pattern@),
    {
        if pattern.unicode_len() == 0 {
            let whole = Span { text: String::from_str(text), highlighted: false };
            let r = vec![whole];
            assert(spans_view(r@) =~= highlight(text@, pattern@));
            return r;
        }
        let t = chars_of(text);
        let p = chars_of(pattern);
        let mut spans: Vec<Span> = Vec::new();
        let mut j: usize = 0;
        let mut i: usize = 0;
        while i < t.len()
            invariant
                t@ == text@,
                p@ == pattern@,
                p@.len() > 0,
                i <= t@.len(),
                j as int == consumed(t@, p@, i as int),
                j <= p@.len(),
                spans_view(spans@) == spans_upto(t@, p@, i as int),
            decreases t@.len() - i,
        {
            let c = t[i];
            let ghost prev = spans_view(spans@);
            let hit = j < p.len() && letters_agree(c, p[j]);
            if hit {
                spans.push(Span { text: char_to_string(c), highlighted: true });
                j = j + 1;
                assert(spans_view(spans@) =~= prev.push((seq![c], true)));
            } else if spans.len() > 0 && !spans[spans.len() - 1].highlighted {
                let last = spans.len() - 1;
                let piece = char_to_string(c);
                let extended = spans[last].text.clone().concat(piece.as_str());
                assert(prev.last().0 == spans@[last as int].text@);
                assert(extended@ =~= prev.last().0.push(c));
                spans.set(last, Span { text: extended, highlighted: false });
                assert(spans_view(spans@) =~= prev.update(
                    prev.len() - 1,
                    (prev.last().0.push(c), false),
                ));
            } else {
                spans.push(Span { text: char_to_string(c), highlighted: false });
                assert(spans_view(spans@) =~= prev.push((seq![c], false)));
            }
            i = i + 1;
        }
        spans
    }

    /// The display lines of the window of `height` matches starting at
    /// `offset`: each match cut to `width` columns and highlighted under
    /// `pattern`.
    pub fn get_results(&self, pattern: &str, width: u16, offset: u32, height: u32) -> (r: Vec<
        Vec<Span>,
    >)
        ensures
            r@.len() == window_len(self.matches().len() as int, offset as int, height as int),
            forall|i: int|
                0 <= i < r@.len() ==> spans_view(#[trigger] r@[i]@) == highlight(
                    truncated(self.matches()[offset + i], width as int),
                    pattern@,
                ),
    {
        let count = matched_count(&self.inner);
        let end: u32 = if offset >= count {
            offset
        } else if height <= count - offset {
            offset + height
        } else {
            count
        };
        let mut lines: Vec<Vec<Span>> = Vec::new();
        let mut k: u32 = offset;
        while k < end
            invariant
                count as int == self.matches().len(),
                offset <= k <= end,
                end as int == offset + window_len(count as int, offset as int, height as int),
                lines@.len() == k - offset,
                forall|i: int|
                    0 <= i < lines@.len() ==> spans_view(#[trigger] lines@[i]@) == highlight(
                        truncated(self.matches()[offset + i], width as int),
                        pattern@,
                    ),
            decreases end - k,
        {
            let item = matched_item(&self.inner, k);
            let text = match item {
                Some(t) => t,
                None => String::new(),
            };
            let truncated_text = truncate_text(text, width);
            let line = self.highlight_fuzzy_match(truncated_text.as_str(), pattern);
            lines.push(line);
            k = k + 1;
        }
        lines
    }
}

/// Whether `v` starts with `prefix`.
fn starts_with(v: &Vec<char>, prefix: &Vec<char>) -> (r: bool)
    requires
        prefix@.len() <= v@.len(),
    ensures
        r == (v@.subrange(0, prefix@.len() as int) == prefix@),
{
    let mut i: usize = 0;
    while i < prefix.len()
        invariant
            prefix@.len() <= v@.len(),
            i <= prefix@.len(),
            forall|j: int| 0 <= j < i ==> v@[j] == prefix@[j],
        decreases prefix@.len() - i,
    {
        if v[i] != prefix[i] {
            assert(v@.subrange(0, prefix@.len() as int)[i as int] != prefix@[i as int]);
            return false;
        }
        i = i + 1;
    }
    assert(v@.subrange(0, prefix@.len() as int) =~= prefix@);
    true
}

} // verus!
