//! Line diffs and the reduction of a diff to the lines around its changes.

use vstd::prelude::*;
use vstd::string::*;

verus! {

/// One line of a diff.
#[derive(Debug, PartialEq, Eq)]
pub enum DiffLine {
    /// A line that only the old text has.
    Removed(String),
    /// A line that both texts have.
    Unchanged(String),
    /// A line that only the new text has.
    Added(String),
}

/// The model of a [`DiffLine`].
pub enum DiffLineView {
    Removed(Seq<char>),
    Unchanged(Seq<char>),
    Added(Seq<char>),
}

impl View for DiffLine {
    type V = DiffLineView;

    open spec fn view(&self) -> DiffLineView {
        match *self {
            DiffLine::Removed(s) => DiffLineView::Removed(s@),
            DiffLine::Unchanged(s) => DiffLineView::Unchanged(s@),
            DiffLine::Added(s) => DiffLineView::Added(s@),
        }
    }
}

impl DiffLine {
    /// Whether the line was removed or added.
    pub open spec fn changed(self) -> bool {
        !(self is Unchanged)
    }

    /// Whether the line was removed or added.
    pub fn is_change(&self) -> (r: bool)
        ensures
            r == self.changed(),
    {
        match self {
            DiffLine::Unchanged(_) => false,
            _ => true,
        }
    }

    /// The text of the line.
    pub fn text(&self) -> (r: &str)
        ensures
            r@ == self@.text(),
    {
        match self {
            DiffLine::Removed(s) => s.as_str(),
            DiffLine::Unchanged(s) => s.as_str(),
            DiffLine::Added(s) => s.as_str(),
        }
    }
}

/// The test for a changed line, as a function.
pub open spec fn line_changed() -> spec_fn(DiffLine) -> bool {
    |l: DiffLine| l.changed()
}

/// Whether a changed line lies at most `context` places from place `i`.
pub open spec fn near_change<A>(
    diff: Seq<A>,
    changed: spec_fn(A) -> bool,
    context: nat,
    i: int,
) -> bool {
    exists|j: int|
        0 <= j < diff.len() && i - context <= j <= i + context && #[trigger] changed(diff[j])
}

/// The places below `m` that lie near a changed line, in rising order.
pub open spec fn kept_below<A>(
    diff: Seq<A>,
    changed: spec_fn(A) -> bool,
    context: nat,
    m: nat,
) -> Seq<int>
    decreases m,
{
    if m == 0 {
        Seq::empty()
    } else {
        let rest = kept_below(diff, changed, context, (m - 1) as nat);
        if near_change(diff, changed, context, m - 1) {
            rest.push(m - 1)
        } else {
            rest
        }
    }
}

/// The places of a diff that lie near a changed line, in rising order.
pub open spec fn kept_places<A>(diff: Seq<A>, changed: spec_fn(A) -> bool, context: nat) -> Seq<
    int,
> {
    kept_below(diff, changed, context, diff.len())
}

/// The diff without the lines that lie more than `context` places from
/// every changed line. A line is kept for its place, not for its value: of
/// two equal lines at different places each is judged by itself.
pub open spec fn reduce_context<A>(diff: Seq<A>, changed: spec_fn(A) -> bool, context: nat) -> Seq<
    A,
> {
    let places = kept_places(diff, changed, context);
    Seq::new(places.len(), |p: int| diff[places[p]])
}

/// The lines behind a sequence of borrowed lines.
pub open spec fn lines_of(borrowed: Seq<&DiffLine>) -> Seq<DiffLine> {
    Seq::new(borrowed.len(), |p: int| *borrowed[p])
}

/// The kept places below `m` are places below `m` near a changed line, and
/// they rise.
pub proof fn lemma_kept_below_sound<A>(
    diff: Seq<A>,
    changed: spec_fn(A) -> bool,
    context: nat,
    m: nat,
)
    ensures
        kept_below(diff, changed, context, m).len() <= m,
        forall|p: int|
            0 <= p < kept_below(diff, changed, context, m).len() ==> {
                let i = #[trigger] kept_below(diff, changed, context, m)[p];
                0 <= i < m && near_change(diff, changed, context, i) && p <= i
            },
        forall|p: int, q: int|
            0 <= p < q < kept_below(diff, changed, context, m).len() ==> #[trigger] kept_below(
                diff,
                changed,
                context,
                m,
            )[p] < #[trigger] kept_below(diff, changed, context, m)[q],
    decreases m,
{
    if m > 0 {
        lemma_kept_below_sound(diff, changed, context, (m - 1) as nat);
    }
}

/// The kept places below `a` are the first of the kept places below `b`,
/// where `a` is at most `b`.
pub proof fn lemma_kept_below_prefix<A>(
    diff: Seq<A>,
    changed: spec_fn(A) -> bool,
    context: nat,
    a: nat,
    b: nat,
)
    requires
        a <= b,
    ensures
        kept_below(diff, changed, context, a).len() <= kept_below(diff, changed, context, b).len(),
        forall|p: int|
            0 <= p < kept_below(diff, changed, context, a).len() ==> #[trigger] kept_below(
                diff,
                changed,
                context,
                b,
            )[p] == kept_below(diff, changed, context, a)[p],
    decreases b,
{
    if a < b {
        lemma_kept_below_prefix(diff, changed, context, a, (b - 1) as nat);
    }
}

/// A place near a changed line is kept, at the position that counts the
/// kept places below it.
pub proof fn lemma_kept_position<A>(
    diff: Seq<A>,
    changed: spec_fn(A) -> bool,
    context: nat,
    i: int,
    m: nat,
)
    requires
        0 <= i < m,
        near_change(diff, changed, context, i),
    ensures
        kept_below(diff, changed, context, i as nat).len() < kept_below(
            diff,
            changed,
            context,
            m,
        ).len(),
        kept_below(diff, changed, context, m)[kept_below(diff, changed, context, i as nat).len() as int]
            == i,
{
    lemma_kept_below_prefix(diff, changed, context, (i + 1) as nat, m);
    assert(kept_below(diff, changed, context, (i + 1) as nat) == kept_below(
        diff,
        changed,
        context,
        i as nat,
    ).push(i));
}

/// Where every place from `a` up to `b` lies near a changed line, as many
/// places are kept between them as there are.
pub proof fn lemma_kept_run<A>(
    diff: Seq<A>,
    changed: spec_fn(A) -> bool,
    context: nat,
    a: nat,
    b: nat,
)
    requires
        a <= b,
        forall|i: int| a <= i < b ==> near_change(diff, changed, context, i),
    ensures
        kept_below(diff, changed, context, b).len() == kept_below(diff, changed, context, a).len()
            + (b - a),
    decreases b,
{
    if a < b {
        lemma_kept_run(diff, changed, context, a, (b - 1) as nat);
    }
}

/// Where every place below `m` lies near a changed line, every place below
/// `m` is kept.
pub proof fn lemma_kept_all<A>(diff: Seq<A>, changed: spec_fn(A) -> bool, context: nat, m: nat)
    requires
        forall|i: int| 0 <= i < m ==> near_change(diff, changed, context, i),
    ensures
        kept_below(diff, changed, context, m) == Seq::new(m, |p: int| p),
    decreases m,
{
    if m > 0 {
        lemma_kept_all(diff, changed, context, (m - 1) as nat);
        assert(kept_below(diff, changed, context, m) =~= Seq::new(m, |p: int| p));
    } else {
        assert(kept_below(diff, changed, context, m) =~= Seq::new(m, |p: int| p));
    }
}

/// Whether a changed line lies at most `context` places from place `i`.
pub fn has_change_near(input: &[DiffLine], context: usize, i: usize) -> (r: bool)
    ensures
        r == near_change(input@, line_changed(), context as nat, i as int),
{
    let start: usize = if i >= context {
        i - context
    } else {
        0
    };
    let end: usize = if i < input.len() && context < input.len() - i {
        i + context + 1
    } else {
        input.len()
    };
    let mut j: usize = start;
    while j < end
        invariant
            start <= j,
            end <= input.len(),
            start == if i >= context { i - context } else { 0 },
            end == if i + context < input.len() { i + context + 1 } else { input.len() as int },
            forall|k: int| start <= k < j ==> !input@[k].changed(),
        decreases end - j,
    {
        if input[j].is_change() {
            assert(line_changed()(input@[j as int]));
            return true;
        }
        j += 1;
    }
    assert forall|k: int|
        0 <= k < input@.len() && i - context <= k <= i + context implies !#[trigger] line_changed()(
        input@[k],
    ) by {
        assert(start <= k < end);
        assert(k < j);
    }
    false
}

/// Reduces a diff to its changed lines and up to `context` unchanged lines
/// before and after each of them, in their order.
pub fn reduce_diff_context<'a>(input: &'a [DiffLine], context: usize) -> (result: Vec<&'a DiffLine>)
    ensures
        lines_of(result@) == reduce_context(input@, line_changed(), context as nat),
{
    let mut result: Vec<&'a DiffLine> = Vec::new();
    let mut i: usize = 0;
    while i < input.len()
        invariant
            i <= input.len(),
            result.len() == kept_below(input@, line_changed(), context as nat, i as nat).len(),
            forall|p: int|
                0 <= p < result.len() ==> *#[trigger] result[p] == input@[kept_below(
                    input@,
                    line_changed(),
                    context as nat,
                    i as nat,
                )[p]],
        decreases input.len() - i,
    {
        if has_change_near(input, context, i) {
            result.push(&input[i]);
        }
        i += 1;
    }
    assert(lines_of(result@) =~= reduce_context(input@, line_changed(), context as nat));
    result
}

/// The lines that the reduction keeps with no context around the changes
/// are exactly the changed lines, in their order.
pub proof fn lemma_no_context_keeps_changes<A>(diff: Seq<A>, changed: spec_fn(A) -> bool)
    ensures
        reduce_context(diff, changed, 0) == diff.filter(changed),
{
    lemma_no_context_below(diff, changed, diff.len());
    assert(diff.take(diff.len() as int) =~= diff);
    assert(reduce_context(diff, changed, 0) =~= diff.filter(changed));
}

/// The lines at the kept places below `m`, with no context, are the changed
/// lines among the first `m`.
pub proof fn lemma_no_context_below<A>(diff: Seq<A>, changed: spec_fn(A) -> bool, m: nat)
    requires
        m <= diff.len(),
    ensures
        Seq::new(
            kept_below(diff, changed, 0, m).len(),
            |p: int| diff[kept_below(diff, changed, 0, m)[p]],
        ) == diff.take(m as int).filter(changed),
    decreases m,
{
    reveal(Seq::filter);
    let here = Seq::new(
        kept_below(diff, changed, 0, m).len(),
        |p: int| diff[kept_below(diff, changed, 0, m)[p]],
    );
    if m == 0 {
        assert(here =~= diff.take(m as int).filter(changed));
    } else {
        let before = Seq::new(
            kept_below(diff, changed, 0, (m - 1) as nat).len(),
            |p: int| diff[kept_below(diff, changed, 0, (m - 1) as nat)[p]],
        );
        lemma_no_context_below(diff, changed, (m - 1) as nat);
        assert(diff.take(m as int).drop_last() =~= diff.take(m - 1));
        assert(diff.take(m as int).last() == diff[m - 1]);
        if changed(diff[m - 1]) {
            assert(near_change(diff, changed, 0, m - 1));
            assert(here =~= before.push(diff[m - 1]));
        } else {
            assert(!near_change(diff, changed, 0, m - 1));
            assert(here =~= before);
        }
    }
}

/// With a context that is at least as long as the diff, a diff that has a
/// changed line is kept whole.
pub proof fn lemma_wide_context_keeps_all<A>(
    diff: Seq<A>,
    changed: spec_fn(A) -> bool,
    context: nat,
)
    requires
        context >= diff.len(),
        exists|j: int| 0 <= j < diff.len() && #[trigger] changed(diff[j]),
    ensures
        reduce_context(diff, changed, context) == diff,
{
    let j = choose|j: int| 0 <= j < diff.len() && #[trigger] changed(diff[j]);
    assert forall|i: int| 0 <= i < diff.len() implies near_change(diff, changed, context, i) by {
        assert(0 <= j < diff.len() && i - context <= j <= i + context && changed(diff[j]));
    }
    lemma_kept_all(diff, changed, context, diff.len());
    assert(reduce_context(diff, changed, context) =~= diff);
}

/// The reduction keeps nothing exactly where the diff has no changed line,
/// and it keeps every changed line.
pub proof fn lemma_reduction_keeps_changes<A>(
    diff: Seq<A>,
    changed: spec_fn(A) -> bool,
    context: nat,
)
    ensures
        reduce_context(diff, changed, context).len() == 0 <==> forall|j: int|
            0 <= j < diff.len() ==> !#[trigger] changed(diff[j]),
        forall|j: int|
            0 <= j < diff.len() && #[trigger] changed(diff[j]) ==> kept_places(
                diff,
                changed,
                context,
            ).contains(j),
{
    let places = kept_places(diff, changed, context);
    lemma_kept_below_sound(diff, changed, context, diff.len());
    assert forall|j: int| 0 <= j < diff.len() && #[trigger] changed(diff[j]) implies places.contains(
        j,
    ) by {
        assert(near_change(diff, changed, context, j));
        lemma_kept_position(diff, changed, context, j, diff.len());
    }
    if places.len() > 0 {
        let i = places[0];
        assert(near_change(diff, changed, context, i));
    }
}

/// Reducing a reduced diff once more, with the same context, changes
/// nothing.
pub proof fn lemma_reduction_is_idempotent<A>(
    diff: Seq<A>,
    changed: spec_fn(A) -> bool,
    context: nat,
)
    ensures
        reduce_context(reduce_context(diff, changed, context), changed, context) == reduce_context(
            diff,
            changed,
            context,
        ),
{
    let places = kept_places(diff, changed, context);
    let reduced = reduce_context(diff, changed, context);
    lemma_kept_below_sound(diff, changed, context, diff.len());
    assert forall|p: int| 0 <= p < reduced.len() implies near_change(
        reduced,
        changed,
        context,
        p,
    ) by {
        let i = places[p];
        assert(near_change(diff, changed, context, i));
        let j = choose|j: int|
            0 <= j < diff.len() && i - context <= j <= i + context && #[trigger] changed(diff[j]);
        assert(near_change(diff, changed, context, j));
        lemma_kept_position(diff, changed, context, i, diff.len());
        lemma_kept_position(diff, changed, context, j, diff.len());
        let rank_i = kept_below(diff, changed, context, i as nat).len() as int;
        let rank_j = kept_below(diff, changed, context, j as nat).len() as int;
        assert(rank_i == p) by {
            if rank_i != p {
                if rank_i < p {
                    assert(places[rank_i] < places[p]);
                } else {
                    assert(places[p] < places[rank_i]);
                }
            }
        }
        if i <= j {
            assert forall|k: int| i <= k < j implies near_change(diff, changed, context, k) by {
                assert(0 <= j < diff.len() && k - context <= j <= k + context && changed(diff[j]));
            }
            lemma_kept_run(diff, changed, context, i as nat, j as nat);
        } else {
            assert forall|k: int| j <= k < i implies near_change(diff, changed, context, k) by {
                assert(0 <= j < diff.len() && k - context <= j <= k + context && changed(diff[j]));
            }
            lemma_kept_run(diff, changed, context, j as nat, i as nat);
        }
        assert(reduced[rank_j] == diff[j]);
        assert(0 <= rank_j < reduced.len() && p - context <= rank_j <= p + context && changed(
            reduced[rank_j],
        ));
    }
    lemma_kept_all(reduced, changed, context, reduced.len());
    assert(reduce_context(reduced, changed, context) =~= reduced);
}

impl DiffLineView {
    /// The text of the line.
    pub open spec fn text(self) -> Seq<char> {
        match self {
            DiffLineView::Removed(s) => s,
            DiffLineView::Unchanged(s) => s,
            DiffLineView::Added(s) => s,
        }
    }

    /// Whether the line was removed or added.
    pub open spec fn changed(self) -> bool {
        !(self is Unchanged)
    }
}

/// The test for a changed line on models, as a function.
pub open spec fn view_changed() -> spec_fn(DiffLineView) -> bool {
    |l: DiffLineView| l.changed()
}

/// The models of a sequence of lines.
pub open spec fn line_views(lines: Seq<DiffLine>) -> Seq<DiffLineView> {
    Seq::new(lines.len(), |i: int| lines[i]@)
}

/// Two diffs of one length whose lines are changed at the same places keep
/// the same places.
pub proof fn lemma_kept_by_changes<A, B>(
    a: Seq<A>,
    a_changed: spec_fn(A) -> bool,
    b: Seq<B>,
    b_changed: spec_fn(B) -> bool,
    context: nat,
    m: nat,
)
    requires
        a.len() == b.len(),
        forall|i: int| 0 <= i < a.len() ==> a_changed(a[i]) == b_changed(b[i]),
    ensures
        kept_below(a, a_changed, context, m) == kept_below(b, b_changed, context, m),
    decreases m,
{
    if m > 0 {
        lemma_kept_by_changes(a, a_changed, b, b_changed, context, (m - 1) as nat);
        let i = m - 1;
        if near_change(a, a_changed, context, i) {
            let j = choose|j: int|
                0 <= j < a.len() && i - context <= j <= i + context && #[trigger] a_changed(a[j]);
            assert(b_changed(b[j]));
        }
        if near_change(b, b_changed, context, i) {
            let j = choose|j: int|
                0 <= j < b.len() && i - context <= j <= i + context && #[trigger] b_changed(b[j]);
            assert(a_changed(a[j]));
        }
    }
}

/// The models of a reduced diff are the reduction of the diff's models.
pub proof fn lemma_reduction_of_views(lines: Seq<DiffLine>, context: nat)
    ensures
        line_views(reduce_context(lines, line_changed(), context)) == reduce_context(
            line_views(lines),
            view_changed(),
            context,
        ),
{
    lemma_kept_by_changes(
        lines,
        line_changed(),
        line_views(lines),
        view_changed(),
        context,
        lines.len(),
    );
    lemma_kept_below_sound(lines, line_changed(), context, lines.len());
    assert(line_views(reduce_context(lines, line_changed(), context)) =~= reduce_context(
        line_views(lines),
        view_changed(),
        context,
    ));
}

impl DiffLine {
    /// A copy of the line.
    pub fn duplicate(&self) -> (r: DiffLine)
        ensures
            r == *self,
    {
        match self {
            DiffLine::Removed(s) => DiffLine::Removed(s.clone()),
            DiffLine::Unchanged(s) => DiffLine::Unchanged(s.clone()),
            DiffLine::Added(s) => DiffLine::Added(s.clone()),
        }
    }

    /// The mark that a line of this kind begins with when it is shown.
    pub open spec fn mark(self) -> char {
        match self {
            DiffLine::Removed(_) => '-',
            DiffLine::Unchanged(_) => ' ',
            DiffLine::Added(_) => '+',
        }
    }

    /// The line as it is shown: its mark, then its text.
    pub fn rendered(&self) -> (r: String)
        ensures
            r@ == seq![self.mark()] + self@.text(),
    {
        proof {
            reveal_strlit("-");
            reveal_strlit(" ");
            reveal_strlit("+");
        }
        let mut r = match self {
            DiffLine::Removed(_) => String::from_str("-"),
            DiffLine::Unchanged(_) => String::from_str(" "),
            DiffLine::Added(_) => String::from_str("+"),
        };
        assert(r@ =~= seq![self.mark()]);
        r.append(self.text());
        r
    }
}

/// What the `diff` crate's `lines` gives for two texts.
pub uninterp spec fn line_diff(old_text: Seq<char>, new_text: Seq<char>) -> Seq<DiffLineView>;

/// The lines of a text as the `diff` crate's `lines` takes them: the lines
/// that `str::lines` gives, and an empty line more where the text ends in a
/// line feed.
pub uninterp spec fn text_lines(text: Seq<char>) -> Seq<Seq<char>>;

/// The side of the old text in a diff: its removed and its unchanged lines,
/// in order.
pub open spec fn old_side(diff: Seq<DiffLineView>) -> Seq<Seq<char>>
    decreases diff.len(),
{
    if diff.len() == 0 {
        Seq::empty()
    } else if diff.last() is Added {
        old_side(diff.drop_last())
    } else {
        old_side(diff.drop_last()).push(diff.last().text())
    }
}

/// The side of the new text in a diff: its added and its unchanged lines,
/// in order.
pub open spec fn new_side(diff: Seq<DiffLineView>) -> Seq<Seq<char>>
    decreases diff.len(),
{
    if diff.len() == 0 {
        Seq::empty()
    } else if diff.last() is Removed {
        new_side(diff.drop_last())
    } else {
        new_side(diff.drop_last()).push(diff.last().text())
    }
}

/// Whether a diff has no removed and no added line.
pub open spec fn is_unchanged(diff: Seq<DiffLineView>) -> bool {
    forall|i: int| 0 <= i < diff.len() ==> !(#[trigger] diff[i]).changed()
}

/// Calls `diff::lines` and copies each fragment: `Left` becomes a removed
/// line, `Right` an added one, and `Both` an unchanged one with the text of
/// its left side. The contract claims that the outcome depends on the two
/// texts alone, and what the source of `diff::lines` shows of it: the
/// removed and the unchanged lines are, in order, the lines of the old
/// text; the added and the unchanged ones are those of the new text; and
/// the diff of a text with itself has unchanged lines only.
#[verifier::external_body]
pub(crate) fn diff_lines(old_text: &str, new_text: &str) -> (r: Vec<DiffLine>)
    ensures
        line_views(r@) == line_diff(old_text@, new_text@),
        old_side(line_views(r@)) == text_lines(old_text@),
        new_side(line_views(r@)) == text_lines(new_text@),
        old_text@ == new_text@ ==> is_unchanged(line_views(r@)),
{
    ::diff::lines(old_text, new_text).into_iter().map(
        |line| match line {
            ::diff::Result::Left(l) => DiffLine::Removed(l.to_owned()),
            ::diff::Result::Both(l, _) => DiffLine::Unchanged(l.to_owned()),
            ::diff::Result::Right(r) => DiffLine::Added(r.to_owned()),
        },
    ).collect()
}

/// A line on the side of the old text is a removed or an unchanged line of
/// the diff.
pub proof fn lemma_old_side_member(diff: Seq<DiffLineView>, line: Seq<char>)
    requires
        old_side(diff).contains(line),
    ensures
        exists|i: int|
            0 <= i < diff.len() && (#[trigger] diff[i] == DiffLineView::Removed(line) || diff[i]
                == DiffLineView::Unchanged(line)),
    decreases diff.len(),
{
    if diff.len() > 0 {
        let front = diff.drop_last();
        let p = choose|p: int| 0 <= p < old_side(diff).len() && old_side(diff)[p] == line;
        if !(diff.last() is Added) && p == old_side(front).len() {
            assert(diff[diff.len() - 1] == diff.last());
        } else {
            assert(old_side(front)[p] == line);
            lemma_old_side_member(front, line);
            let i = choose|i: int|
                0 <= i < front.len() && (#[trigger] front[i] == DiffLineView::Removed(line)
                    || front[i] == DiffLineView::Unchanged(line));
            assert(diff[i] == front[i]);
        }
    }
}

/// A line on the side of the new text is an added or an unchanged line of
/// the diff.
pub proof fn lemma_new_side_member(diff: Seq<DiffLineView>, line: Seq<char>)
    requires
        new_side(diff).contains(line),
    ensures
        exists|i: int|
            0 <= i < diff.len() && (#[trigger] diff[i] == DiffLineView::Added(line) || diff[i]
                == DiffLineView::Unchanged(line)),
    decreases diff.len(),
{
    if diff.len() > 0 {
        let front = diff.drop_last();
        let p = choose|p: int| 0 <= p < new_side(diff).len() && new_side(diff)[p] == line;
        if !(diff.last() is Removed) && p == new_side(front).len() {
            assert(diff[diff.len() - 1] == diff.last());
        } else {
            assert(new_side(front)[p] == line);
            lemma_new_side_member(front, line);
            let i = choose|i: int|
                0 <= i < front.len() && (#[trigger] front[i] == DiffLineView::Added(line)
                    || front[i] == DiffLineView::Unchanged(line));
            assert(diff[i] == front[i]);
        }
    }
}

/// The text of every line that is not added stands on the side of the old
/// text, and the text of every line that is not removed on the side of the
/// new text.
pub proof fn lemma_sides_hold_lines(diff: Seq<DiffLineView>, i: int)
    requires
        0 <= i < diff.len(),
    ensures
        !(diff[i] is Added) ==> old_side(diff).contains(diff[i].text()),
        !(diff[i] is Removed) ==> new_side(diff).contains(diff[i].text()),
    decreases diff.len(),
{
    let front = diff.drop_last();
    if i < diff.len() - 1 {
        lemma_sides_hold_lines(front, i);
        assert(front[i] == diff[i]);
        if !(diff[i] is Added) {
            let p = choose|p: int|
                0 <= p < old_side(front).len() && old_side(front)[p] == diff[i].text();
            assert(old_side(diff)[p] == diff[i].text());
        }
        if !(diff[i] is Removed) {
            let p = choose|p: int|
                0 <= p < new_side(front).len() && new_side(front)[p] == diff[i].text();
            assert(new_side(diff)[p] == diff[i].text());
        }
    } else {
        if !(diff[i] is Added) {
            assert(old_side(diff)[old_side(front).len() as int] == diff[i].text());
        }
        if !(diff[i] is Removed) {
            assert(new_side(diff)[new_side(front).len() as int] == diff[i].text());
        }
    }
}

/// A changed line is among the lines that the reduction keeps, whatever the
/// context.
pub proof fn lemma_changed_line_is_kept<A>(
    diff: Seq<A>,
    changed: spec_fn(A) -> bool,
    context: nat,
    j: int,
)
    requires
        0 <= j < diff.len(),
        changed(diff[j]),
    ensures
        reduce_context(diff, changed, context).contains(diff[j]),
{
    lemma_reduction_keeps_changes(diff, changed, context);
    let places = kept_places(diff, changed, context);
    assert(places.contains(j));
    let p = choose|p: int| 0 <= p < places.len() && places[p] == j;
    assert(reduce_context(diff, changed, context)[p] == diff[j]);
}

/// A line of the old text that is no line of the new text is shown as a
/// removed line, and a line of the new text that is no line of the old text
/// as an added line, whatever the context.
pub proof fn lemma_replaced_line_is_shown(diff: Seq<DiffLineView>, context: nat, line: Seq<char>)
    ensures
        old_side(diff).contains(line) && !new_side(diff).contains(line) ==> reduce_context(
            diff,
            view_changed(),
            context,
        ).contains(DiffLineView::Removed(line)),
        new_side(diff).contains(line) && !old_side(diff).contains(line) ==> reduce_context(
            diff,
            view_changed(),
            context,
        ).contains(DiffLineView::Added(line)),
{
    if old_side(diff).contains(line) && !new_side(diff).contains(line) {
        lemma_old_side_member(diff, line);
        let i = choose|i: int|
            0 <= i < diff.len() && (#[trigger] diff[i] == DiffLineView::Removed(line) || diff[i]
                == DiffLineView::Unchanged(line));
        lemma_sides_hold_lines(diff, i);
        assert(diff[i] == DiffLineView::Removed(line));
        assert(view_changed()(diff[i]));
        lemma_changed_line_is_kept(diff, view_changed(), context, i);
    }
    if new_side(diff).contains(line) && !old_side(diff).contains(line) {
        lemma_new_side_member(diff, line);
        let i = choose|i: int|
            0 <= i < diff.len() && (#[trigger] diff[i] == DiffLineView::Added(line) || diff[i]
                == DiffLineView::Unchanged(line));
        lemma_sides_hold_lines(diff, i);
        assert(diff[i] == DiffLineView::Added(line));
        assert(view_changed()(diff[i]));
        lemma_changed_line_is_kept(diff, view_changed(), context, i);
    }
}

/// The lines of the diff of two texts that are printed: the changed lines
/// with up to `context` lines around each. A line that only one of the
/// texts has is among them, as a removed line where the old text has it and
/// as an added line where the new text has it; of a text and itself nothing
/// is printed.
pub fn print_diff(old_contents: &str, new_contents: &str, context: usize) -> (r: Vec<DiffLine>)
    ensures
        line_views(r@) == reduce_context(
            line_diff(old_contents@, new_contents@),
            view_changed(),
            context as nat,
        ),
        forall|line: Seq<char>|
            #[trigger] text_lines(old_contents@).contains(line) && !text_lines(
                new_contents@,
            ).contains(line) ==> line_views(r@).contains(DiffLineView::Removed(line)),
        forall|line: Seq<char>|
            #[trigger] text_lines(new_contents@).contains(line) && !text_lines(
                old_contents@,
            ).contains(line) ==> line_views(r@).contains(DiffLineView::Added(line)),
        old_contents@ == new_contents@ ==> r.len() == 0,
{
    let full = diff_lines(old_contents, new_contents);
    let kept = reduce_diff_context(full.as_slice(), context);
    let mut r: Vec<DiffLine> = Vec::new();
    let mut i: usize = 0;
    while i < kept.len()
        invariant
            i <= kept.len(),
            r.len() == i,
            forall|p: int| 0 <= p < i ==> #[trigger] r[p] == *kept[p],
        decreases kept.len() - i,
    {
        r.push(kept[i].duplicate());
        i += 1;
    }
    proof {
        assert(r@ =~= lines_of(kept@));
        lemma_reduction_of_views(full@, context as nat);
        let diff = line_views(full@);
        assert forall|line: Seq<char>|
            #[trigger] text_lines(old_contents@).contains(line) && !text_lines(
                new_contents@,
            ).contains(line) implies line_views(r@).contains(DiffLineView::Removed(line)) by {
            lemma_replaced_line_is_shown(diff, context as nat, line);
        }
        assert forall|line: Seq<char>|
            #[trigger] text_lines(new_contents@).contains(line) && !text_lines(
                old_contents@,
            ).contains(line) implies line_views(r@).contains(DiffLineView::Added(line)) by {
            lemma_replaced_line_is_shown(diff, context as nat, line);
        }
        if old_contents@ == new_contents@ {
            lemma_reduction_keeps_changes(diff, view_changed(), context as nat);
            assert forall|j: int| 0 <= j < diff.len() implies !#[trigger] view_changed()(
                diff[j],
            ) by {}
        }
    }
    r
}

} // verus!
