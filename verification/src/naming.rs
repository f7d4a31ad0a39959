//! Collection names: every record type belongs to the collection that its
//! type name, unqualified and in snake case, spells.
//!
//! A wrapper type is transparent: the name of a document or an edge of some
//! record is the name of the record.

use vstd::prelude::*;

verus! {

/// Whether `text` holds `<` at `open` and `>` at `close`, with at least one
/// character between them and no line feed among those.
pub open spec fn encloses(text: Seq<char>, open: int, close: int) -> bool {
    &&& 0 <= open
    &&& open + 2 <= close < text.len()
    &&& text[open] == '<'
    &&& text[close] == '>'
    &&& forall|k: int| open < k < close ==> text[k] != '\n'
}

/// Whether a bracketed stretch of `text` starts at `open`.
pub open spec fn opens(text: Seq<char>, open: int) -> bool {
    exists|close: int| encloses(text, open, close)
}

/// Whether `open` is the first position at which a bracketed stretch of
/// `text` starts.
pub open spec fn is_first_open(text: Seq<char>, open: int) -> bool {
    &&& opens(text, open)
    &&& forall|other: int| opens(text, other) ==> open <= other
}

/// Whether `close` is the last position at which a bracketed stretch of
/// `text` that starts at `open` ends.
pub open spec fn is_last_close(text: Seq<char>, open: int, close: int) -> bool {
    &&& encloses(text, open, close)
    &&& forall|other: int| encloses(text, open, other) ==> other <= close
}

/// The positions of the brackets around the generic arguments of a type
/// name: the first `<` that starts a bracketed stretch, and the last `>`
/// that ends one from there.
#[verifier::opaque]
pub open spec fn generic_span(text: Seq<char>) -> Option<(int, int)> {
    if exists|open: int| opens(text, open) {
        let open = choose|open: int| is_first_open(text, open);
        let close = choose|close: int| is_last_close(text, open, close);
        Some((open, close))
    } else {
        None
    }
}

/// The pattern of the generic arguments of a type name, brackets included.
pub const GENERIC_ARGUMENTS: &'static str = "<.+>";

/// Calls `find` of the `regex` compiled from `pattern`, which must be
/// `GENERIC_ARGUMENTS`. The match of that pattern is the leftmost stretch
/// that starts with `<`, goes on with one or more characters other than a
/// line feed, as many as possible, and ends with `>`: the text between the
/// positions of `generic_span`, both included.
#[verifier::external_body]
fn find(pattern: &str, text: &str) -> (found: Option<String>)
    requires
        pattern@ == GENERIC_ARGUMENTS@,
    ensures
        match generic_span(text@) {
            Some((open, close)) => found is Some && found->0@ == text@.subrange(open, close + 1),
            None => found is None,
        },
{
    match regex::Regex::new(pattern) {
        Ok(regex) => regex.find(text).map(|captured| captured.as_str().to_owned()),
        Err(_) => None,
    }
}

/// What `text` holds before the first `stop`; all of it where there is none.
pub open spec fn before(text: Seq<char>, stop: char) -> Seq<char>
    decreases text.len(),
{
    if text.len() == 0 || text[0] == stop {
        Seq::empty()
    } else {
        seq![text[0]] + before(text.drop_first(), stop)
    }
}

/// Where the last segment of a path starts, reading `text` from `at` on with
/// `start` the start of the segment read so far. Segments are parted by two
/// colons; separators are found from left to right and do not overlap.
pub open spec fn last_segment_start(text: Seq<char>, start: int, at: int) -> int
    decreases text.len() - at,
{
    if at < 0 || at + 1 >= text.len() {
        start
    } else if text[at] == ':' && text[at + 1] == ':' {
        last_segment_start(text, at + 2, at + 2)
    } else {
        last_segment_start(text, start, at + 1)
    }
}

/// The last segment of a path whose segments are parted by two colons.
pub open spec fn last_segment(text: Seq<char>) -> Seq<char> {
    text.skip(last_segment_start(text, 0, 0))
}

/// A type name without its generic arguments and without its path.
pub open spec fn unqualified(name: Seq<char>) -> Seq<char> {
    last_segment(before(name, '<'))
}

/// Whether `name` is the name of one of the two wrappers, `Doc` or `Edge`:
/// whether that is what the type itself is called, whatever its path and its
/// arguments.
pub open spec fn is_wrapper(name: Seq<char>) -> bool {
    unqualified(name) == "Doc"@ || unqualified(name) == "Edge"@
}

/// `text` in snake case: its words in lower case with an underscore between
/// neighbours, as `convert_case` splits and writes them.
pub uninterp spec fn snake_case(text: Seq<char>) -> Seq<char>;

/// Calls `to_case` of `convert_case` with `Case::Snake`. The result is named
/// `snake_case`.
#[verifier::external_body]
fn to_snake(text: &str) -> (converted: String)
    ensures
        converted@ == snake_case(text@),
{
    convert_case::Casing::to_case(&text, convert_case::Case::Snake)
}

/// The collection that the type called `name` belongs to. Where `name` is
/// the name of a wrapper and has generic arguments, it is the collection of
/// those arguments; else it is the unqualified name in snake case.
pub open spec fn collection_of(name: Seq<char>) -> Seq<char>
    decreases name.len(),
{
    match generic_span(name) {
        Some((open, close)) => if is_wrapper(name) && 0 <= open < close < name.len() {
            collection_of(name.subrange(open + 1, close))
        } else {
            snake_case(unqualified(name))
        },
        None => snake_case(unqualified(name)),
    }
}

/// Below `bound` or at it, some position is the first at which a bracketed
/// stretch starts.
proof fn lemma_first_open(text: Seq<char>, bound: int) -> (open: int)
    requires
        exists|k: int| k <= bound && opens(text, k),
    ensures
        is_first_open(text, open),
    decreases bound,
{
    if exists|k: int| k <= bound - 1 && opens(text, k) {
        let k = choose|k: int| k <= bound - 1 && opens(text, k);
        let close = choose|close: int| encloses(text, k, close);
        assert(0 <= k);
        lemma_first_open(text, bound - 1)
    } else {
        let k = choose|k: int| k <= bound && opens(text, k);
        assert(k == bound);
        assert forall|other: int| opens(text, other) implies bound <= other by {
            if other < bound {
                assert(other <= bound - 1 && opens(text, other));
            }
        }
        bound
    }
}

/// Above `bound` or at it, some position is the last at which a stretch from
/// `open` ends.
proof fn lemma_last_close(text: Seq<char>, open: int, bound: int) -> (close: int)
    requires
        exists|k: int| bound <= k && encloses(text, open, k),
    ensures
        is_last_close(text, open, close),
    decreases text.len() - bound,
{
    if exists|k: int| bound + 1 <= k && encloses(text, open, k) {
        let k = choose|k: int| bound + 1 <= k && encloses(text, open, k);
        assert(k < text.len());
        lemma_last_close(text, open, bound + 1)
    } else {
        let k = choose|k: int| bound <= k && encloses(text, open, k);
        assert(k == bound);
        assert forall|other: int| encloses(text, open, other) implies other <= bound by {
            if other > bound {
                assert(bound + 1 <= other && encloses(text, open, other));
            }
        }
        bound
    }
}

/// The positions of `generic_span` are those of a bracketed stretch: the one
/// that starts first and, from there, ends last. There are none exactly
/// where no stretch of the text is bracketed.
pub proof fn lemma_generic_span(text: Seq<char>)
    ensures
        generic_span(text) is None <==> forall|open: int| !opens(text, open),
        generic_span(text) matches Some((open, close)) ==> is_first_open(text, open)
            && is_last_close(text, open, close),
{
    reveal(generic_span);
    if exists|open: int| opens(text, open) {
        let some = choose|open: int| opens(text, open);
        let witness = lemma_first_open(text, some);
        let first = choose|open: int| is_first_open(text, open);
        assert(is_first_open(text, first));
        let end = choose|close: int| encloses(text, first, close);
        let last = lemma_last_close(text, first, end);
        let close = choose|close: int| is_last_close(text, first, close);
        assert(is_last_close(text, first, close));
        assert(generic_span(text) == Some((first, close)));
    }
}

/// A bracketed stretch that starts first and ends last is the one
/// `generic_span` gives.
pub proof fn lemma_generic_span_is(text: Seq<char>, open: int, close: int)
    requires
        is_first_open(text, open),
        is_last_close(text, open, close),
    ensures
        generic_span(text) == Some((open, close)),
{
    lemma_generic_span(text);
    assert(opens(text, open));
    let (first, last) = generic_span(text)->0;
    assert(first == open);
    assert(last == close);
}

/// Whether `name` can be the full name of a type: it is not empty and holds
/// no line feed.
pub open spec fn is_type_name(name: Seq<char>) -> bool {
    &&& name.len() > 0
    &&& forall|k: int| 0 <= k < name.len() ==> name[k] != '\n'
}

/// The name of a type that is not a wrapper is a function of its
/// unqualified name alone: that name in snake case.
pub proof fn lemma_plain_name(name: Seq<char>)
    requires
        !is_wrapper(name),
    ensures
        collection_of(name) == snake_case(unqualified(name)),
{
}

/// A wrapper is transparent: a type whose name is that of a wrapper, which
/// holds no `<`, followed by the name of a record between angle brackets
/// belongs to the collection of the record.
pub proof fn lemma_wrapper_is_transparent(wrapper: Seq<char>, record: Seq<char>)
    requires
        is_wrapper(wrapper),
        forall|k: int| 0 <= k < wrapper.len() ==> wrapper[k] != '<',
        is_type_name(record),
    ensures
        collection_of(wrapper + "<"@ + record + ">"@) == collection_of(record),
{
    reveal_strlit("<");
    reveal_strlit(">");
    let name = wrapper + "<"@ + record + ">"@;
    let open = wrapper.len() as int;
    let close = name.len() - 1;
    lemma_before(wrapper, '<', open);
    lemma_before(name, '<', open);
    assert(name.take(open) =~= wrapper);
    assert(wrapper.take(open) =~= wrapper);
    assert(is_wrapper(name));
    assert(encloses(name, open, close));
    assert forall|other: int| opens(name, other) implies open <= other by {
        let end = choose|end: int| encloses(name, other, end);
        if other < open {
            assert(name[other] == wrapper[other]);
        }
    }
    lemma_generic_span_is(name, open, close);
    assert(name.subrange(open + 1, close) =~= record);
}

/// The characters of `text`, one by one.
fn chars_of(text: &str) -> (chars: Vec<char>)
    ensures
        chars@ == text@,
{
    let mut chars: Vec<char> = Vec::new();
    for c in it: text.chars()
        invariant
            it.seq() == text@,
            chars@ == it.seq().take(it.index() as int),
    {
        chars.push(c);
        assert(chars@ =~= it.seq().take(it.index() + 1));
    }
    assert(chars@ =~= text@);
    chars
}

/// Whether two texts are the same.
fn same_text(text: &str, other: &str) -> (same: bool)
    ensures
        same == (text@ == other@),
{
    text.to_owned() == other.to_owned()
}

/// Reading on over characters that are no colon changes nothing of where
/// the last segment starts.
pub proof fn lemma_last_segment_reads_on(text: Seq<char>, start: int, from: int, to: int)
    requires
        0 <= from <= to,
        forall|k: int| from <= k < to && k < text.len() ==> text[k] != ':',
    ensures
        last_segment_start(text, start, from) == last_segment_start(text, start, to),
    decreases to - from,
{
    if from < to {
        lemma_last_segment_reads_on(text, start, from + 1, to);
    }
}

/// `before(text, stop)` is the prefix of `text` up to the first `stop`.
pub proof fn lemma_before(text: Seq<char>, stop: char, cut: int)
    requires
        0 <= cut <= text.len(),
        forall|k: int| 0 <= k < cut ==> text[k] != stop,
        cut == text.len() || text[cut] == stop,
    ensures
        before(text, stop) == text.take(cut),
    decreases cut,
{
    if cut == 0 {
        assert(text.take(0) =~= Seq::<char>::empty());
    } else {
        let rest = text.drop_first();
        assert forall|k: int| 0 <= k < cut - 1 implies rest[k] != stop by {
            assert(rest[k] == text[k + 1]);
        }
        lemma_before(rest, stop, cut - 1);
        assert(text.take(cut) =~= seq![text[0]] + rest.take(cut - 1));
    }
}

/// The length of what `text` holds before the first `stop`.
fn length_before(text: &Vec<char>, stop: char) -> (cut: usize)
    ensures
        cut <= text.len(),
        before(text@, stop) == text@.take(cut as int),
{
    let mut cut: usize = 0;
    while cut < text.len() && text[cut] != stop
        invariant
            cut <= text.len(),
            forall|k: int| 0 <= k < cut ==> text@[k] != stop,
        decreases text.len() - cut,
    {
        cut = cut + 1;
    }
    proof {
        lemma_before(text@, stop, cut as int);
    }
    cut
}

/// Where the last segment of the first `len` characters of `text` starts.
fn start_of_last_segment(text: &Vec<char>, len: usize) -> (start: usize)
    requires
        len <= text.len(),
    ensures
        start <= len,
        start == last_segment_start(text@.take(len as int), 0, 0),
{
    let ghost path = text@.take(len as int);
    let mut start: usize = 0;
    let mut at: usize = 0;
    if len < 2 {
        return 0;
    }
    while at < len - 1
        invariant
            start <= at <= len <= text.len(),
            2 <= len,
            path == text@.take(len as int),
            last_segment_start(path, start as int, at as int) == last_segment_start(path, 0, 0),
        decreases len - at,
    {
        if text[at] == ':' && text[at + 1] == ':' {
            start = at + 2;
            at = at + 2;
        } else {
            at = at + 1;
        }
    }
    start
}

/// The collection that the type called `name` belongs to.
pub fn extract_name(name: &str) -> (collection: String)
    ensures
        collection@ == collection_of(name@),
    decreases name@.len(),
{
    let chars = chars_of(name);
    let cut = length_before(&chars, '<');
    let start = start_of_last_segment(&chars, cut);
    let segment = name.substring_char(start, cut);
    assert(segment@ =~= unqualified(name@));
    proof {
        lemma_generic_span(name@);
    }
    if same_text(segment, "Doc") || same_text(segment, "Edge") {
        match find(GENERIC_ARGUMENTS, name) {
            Some(captured) => {
                let ghost (open, close) = generic_span(name@)->0;
                assert(encloses(name@, open, close));
                let len = captured.as_str().unicode_len();
                let sanitized = captured.as_str().substring_char(1, len - 1);
                assert(sanitized@ =~= name@.subrange(open + 1, close));
                return extract_name(sanitized);
            },
            None => {},
        }
    }
    to_snake(segment)
}

/// A type of records that says what it is called.
pub trait Record {
    /// The full name of the type: its path, its own name and, between angle
    /// brackets, the full names of its arguments. A type states it where it
    /// is verified; elsewhere it is left open.
    open spec fn declared() -> Seq<char> {
        arbitrary()
    }

    /// The full name of the type, always the same.
    fn full_name() -> (full_name: String)
        ensures
            full_name@ == Self::declared(),
            is_type_name(full_name@),
    ;
}

/// The collection that records of type `R` belong to.
pub fn name<R: Record>() -> (collection: String)
    ensures
        collection@ == collection_of(R::declared()),
        is_type_name(R::declared()),
{
    let full_name = R::full_name();
    extract_name(full_name.as_str())
}

/// The collection that records of type `R` belong to.
pub fn collection_name<R: Record>() -> (collection: String)
    ensures
        collection@ == collection_of(R::declared()),
        is_type_name(R::declared()),
{
    name::<R>()
}

} // verus!
