//! Pagination, time ranges, tag filters and response envelopes, as every
//! tool uses them.

use crate::error::DatadogError;
use crate::error::DatadogErrorView;
use crate::json::view_fields;
use crate::json::view_opt;
use crate::json::Json;
use crate::json::JsonNumber;
use crate::json::JsonView;
use crate::text::chars_of;
use crate::text::chars_start_with;
use crate::text::decimal;
use crate::text::push_decimal_u128;
use crate::text::join;
use crate::text::split;
use crate::text::split_on;
use crate::text::trim;
use crate::text::trimmed;
use crate::text::views;
use crate::utils::parse_time_at;
use crate::utils::parsed_time;
use crate::utils::rfc3339_text_of;
use crate::utils::timestamp_to_rfc3339;
use vstd::prelude::*;
use vstd::string::*;

verus! {

/// How many lines of a stack trace are kept when it is truncated.
pub const DEFAULT_STACK_TRACE_LINES: usize = 10;

/// How long a string may be before it is truncated.
pub const MAX_STRING_LENGTH: usize = 100;

/// Where a page of results stands within the whole.
#[derive(Debug, Clone, PartialEq, Eq)]
pub struct PaginationInfo {
    /// Total items available.
    pub total: usize,
    /// Current page, counted from zero.
    pub page: usize,
    /// Items per page.
    pub page_size: usize,
    /// Whether more pages exist.
    pub has_next: bool,
    /// Where the next page starts, for APIs that page by offset.
    pub next_offset: Option<usize>,
}

impl PaginationInfo {
    /// Pagination for APIs that answer with a single page: a full page is
    /// taken to mean that more would follow.
    pub fn single_page(result_count: usize, limit: usize) -> (info: Self)
        ensures
            info == (PaginationInfo {
                total: result_count,
                page: 0,
                page_size: limit,
                has_next: result_count >= limit,
                next_offset: None,
            }),
    {
        PaginationInfo {
            total: result_count,
            page: 0,
            page_size: limit,
            has_next: result_count >= limit,
            next_offset: None,
        }
    }

    /// Pagination for APIs that page by offset: the page that starts at item
    /// `start` when pages hold `count` items. More pages follow where the
    /// next offset is still below the total.
    pub fn from_offset(total: usize, start: usize, count: usize) -> (info: Self)
        requires
            count > 0,
            start + count <= usize::MAX,
        ensures
            info == (PaginationInfo {
                total,
                page: (start / count) as usize,
                page_size: count,
                has_next: start + count < total,
                next_offset: if start + count < total {
                    Some((start + count) as usize)
                } else {
                    None
                },
            }),
    {
        let page = start / count;
        let next_offset = start + count;
        let has_next = next_offset < total;
        PaginationInfo {
            total,
            page,
            page_size: count,
            has_next,
            next_offset: if has_next {
                Some(next_offset)
            } else {
                None
            },
        }
    }

    /// Pagination for APIs that page by cursor: more pages follow exactly
    /// where the answer carried a cursor.
    pub fn from_cursor(total: usize, page_size: usize, has_cursor: bool) -> (info: Self)
        ensures
            info == (PaginationInfo {
                total,
                page: 0,
                page_size,
                has_next: has_cursor,
                next_offset: None,
            }),
    {
        PaginationInfo { total, page: 0, page_size, has_next: has_cursor, next_offset: None }
    }
}

/// A time range as Unix timestamps, in seconds.
#[derive(Debug, Clone, Copy, PartialEq, Eq)]
pub enum TimeParams {
    Timestamp { from: i64, to: i64 },
}

/// The prefixes that a tag filter names: its pieces between commas, each
/// without the white space around it.
pub open spec fn tag_prefixes(filter: Seq<char>) -> Seq<Seq<char>> {
    Seq::new(split_on(filter, ',').len(), |i: int| trimmed(split_on(filter, ',')[i]))
}

/// Whether a tag starts with one of the prefixes.
pub open spec fn tag_passes(tag: Seq<char>, prefixes: Seq<Seq<char>>) -> bool {
    exists|i: int| 0 <= i < prefixes.len() && (#[trigger] prefixes[i]).is_prefix_of(tag)
}

/// The test that [`tag_passes`] makes, as a predicate on tags.
pub open spec fn passing(prefixes: Seq<Seq<char>>) -> spec_fn(Seq<char>) -> bool {
    |tag: Seq<char>| tag_passes(tag, prefixes)
}

/// The tags that a filter lets through, in their order: all of them for
/// `*`, none for the empty filter, and else those that start with one of
/// the filter's prefixes.
pub open spec fn filtered_tags(tags: Seq<Seq<char>>, filter: Seq<char>) -> Seq<Seq<char>> {
    if filter == "*"@ {
        tags
    } else if filter.len() == 0 {
        Seq::empty()
    } else {
        tags.filter(passing(tag_prefixes(filter)))
    }
}

/// The views of a list of character lists.
pub open spec fn char_lists(lists: Seq<Vec<char>>) -> Seq<Seq<char>> {
    Seq::new(lists.len(), |i: int| lists[i]@)
}

/// The prefixes that a tag filter names, as character lists.
pub fn parse_tag_prefixes(filter: &str) -> (prefixes: Vec<Vec<char>>)
    ensures
        char_lists(prefixes@) == tag_prefixes(filter@),
{
    let pieces = split(filter, ',');
    let mut prefixes: Vec<Vec<char>> = Vec::new();
    let mut i: usize = 0;
    while i < pieces.len()
        invariant
            i <= pieces.len(),
            prefixes.len() == i,
            views(pieces@) == split_on(filter@, ','),
            forall|j: int| 0 <= j < i ==> (#[trigger] prefixes@[j])@ == trimmed(pieces@[j]@),
        decreases pieces.len() - i,
    {
        prefixes.push(chars_of(trim(pieces[i].as_str())));
        i = i + 1;
    }
    proof {
        assert forall|j: int| 0 <= j < prefixes@.len() implies char_lists(prefixes@)[j]
            == tag_prefixes(filter@)[j] by {
            assert(views(pieces@)[j] == pieces@[j]@);
        }
        assert(char_lists(prefixes@) =~= tag_prefixes(filter@));
    }
    prefixes
}

/// Whether a tag starts with one of the prefixes.
pub fn tag_has_prefix(tag: &str, prefixes: &Vec<Vec<char>>) -> (passes: bool)
    ensures
        passes == tag_passes(tag@, char_lists(prefixes@)),
{
    let tag_chars = chars_of(tag);
    let mut i: usize = 0;
    while i < prefixes.len()
        invariant
            i <= prefixes.len(),
            tag_chars@ == tag@,
            forall|j: int| 0 <= j < i ==> !(#[trigger] char_lists(prefixes@)[j]).is_prefix_of(tag@),
        decreases prefixes.len() - i,
    {
        if chars_start_with(&tag_chars, &prefixes[i]) {
            assert(char_lists(prefixes@)[i as int].is_prefix_of(tag@));
            return true;
        }
        i = i + 1;
    }
    false
}

/// The tags that start with one of the prefixes, in their order.
pub fn keep_tags_with_prefix(tags: &[String], prefixes: &Vec<Vec<char>>) -> (kept: Vec<String>)
    ensures
        views(kept@) == views(tags@).filter(passing(char_lists(prefixes@))),
{
    let ghost test = passing(char_lists(prefixes@));
    let mut kept: Vec<String> = Vec::new();
    let mut i: usize = 0;
    proof {
        reveal(Seq::filter);
        assert(views(tags@).take(0) =~= Seq::empty());
    }
    while i < tags.len()
        invariant
            i <= tags.len(),
            test == passing(char_lists(prefixes@)),
            views(kept@) == views(tags@).take(i as int).filter(test),
        decreases tags.len() - i,
    {
        proof {
            reveal(Seq::filter);
            assert(views(tags@).take(i + 1).drop_last() =~= views(tags@).take(i as int));
            assert(views(tags@).take(i + 1).last() == tags@[i as int]@);
        }
        if tag_has_prefix(tags[i].as_str(), prefixes) {
            kept.push(tags[i].clone());
            assert(views(kept@) =~= views(tags@).take(i as int).filter(test).push(tags@[i as int]@));
        }
        i = i + 1;
    }
    proof {
        assert(views(tags@).take(i as int) =~= views(tags@));
    }
    kept
}

/// A copy of a list of texts.
pub fn clone_texts(texts: &[String]) -> (copy: Vec<String>)
    ensures
        views(copy@) == views(texts@),
{
    let mut copy: Vec<String> = Vec::new();
    let mut i: usize = 0;
    while i < texts.len()
        invariant
            i <= texts.len(),
            copy.len() == i,
            forall|j: int| 0 <= j < i ==> copy@[j]@ == texts@[j]@,
        decreases texts.len() - i,
    {
        copy.push(texts[i].clone());
        i = i + 1;
    }
    assert(views(copy@) =~= views(texts@));
    copy
}

/// The view of a table of tags by source.
pub open spec fn view_tag_map(map: Seq<(String, Vec<String>)>) -> Seq<(Seq<char>, Seq<Seq<char>>)> {
    Seq::new(map.len(), |i: int| (map[i].0@, views(map[i].1@)))
}

/// The view of an optional table of tags by source.
pub open spec fn view_opt_tag_map(map: Option<Vec<(String, Vec<String>)>>) -> Option<
    Seq<(Seq<char>, Seq<Seq<char>>)>,
> {
    match map {
        Some(table) => Some(view_tag_map(table@)),
        None => None,
    }
}

/// A source with those of its tags that start with one of the prefixes.
pub open spec fn source_filtered(prefixes: Seq<Seq<char>>) -> spec_fn(
    (Seq<char>, Seq<Seq<char>>),
) -> (Seq<char>, Seq<Seq<char>>) {
    |entry: (Seq<char>, Seq<Seq<char>>)| (entry.0, entry.1.filter(passing(prefixes)))
}

/// Whether a source has tags.
pub open spec fn has_tags() -> spec_fn((Seq<char>, Seq<Seq<char>>)) -> bool {
    |entry: (Seq<char>, Seq<Seq<char>>)| entry.1.len() > 0
}

/// The table of tags by source that a filter lets through: the whole
/// table for `*`, none for the empty filter, and else every source with
/// those of its tags that start with one of the filter's prefixes, without
/// the sources that keep no tag.
pub open spec fn filtered_tag_map(
    map: Option<Seq<(Seq<char>, Seq<Seq<char>>)>>,
    filter: Seq<char>,
) -> Option<Seq<(Seq<char>, Seq<Seq<char>>)>> {
    if filter == "*"@ {
        map
    } else if filter.len() == 0 {
        None
    } else {
        match map {
            Some(table) => Some(
                table.map_values(source_filtered(tag_prefixes(filter))).filter(has_tags()),
            ),
            None => None,
        }
    }
}

/// A copy of a table of tags by source.
pub fn clone_tag_map(map: &Vec<(String, Vec<String>)>) -> (copy: Vec<(String, Vec<String>)>)
    ensures
        view_tag_map(copy@) == view_tag_map(map@),
{
    let mut copy: Vec<(String, Vec<String>)> = Vec::new();
    let mut i: usize = 0;
    while i < map.len()
        invariant
            i <= map.len(),
            copy.len() == i,
            forall|j: int|
                0 <= j < i ==> copy@[j].0@ == map@[j].0@ && views(copy@[j].1@) == views(map@[j].1@),
        decreases map.len() - i,
    {
        let source = map[i].0.clone();
        let tags = clone_texts(map[i].1.as_slice());
        copy.push((source, tags));
        i = i + 1;
    }
    assert(view_tag_map(copy@) =~= view_tag_map(map@));
    copy
}

/// The sources of a table with those of their tags that start with one of
/// the prefixes, without the sources that keep no tag.
pub fn keep_sources_with_prefix(map: &Vec<(String, Vec<String>)>, prefixes: &Vec<Vec<char>>) -> (kept:
    Vec<(String, Vec<String>)>)
    ensures
        view_tag_map(kept@) == view_tag_map(map@).map_values(
            source_filtered(char_lists(prefixes@)),
        ).filter(has_tags()),
{
    let ghost narrowed = view_tag_map(map@).map_values(source_filtered(char_lists(prefixes@)));
    let mut kept: Vec<(String, Vec<String>)> = Vec::new();
    let mut i: usize = 0;
    proof {
        reveal(Seq::filter);
        assert(narrowed.take(0) =~= Seq::empty());
        assert(view_tag_map(kept@) =~= Seq::empty());
    }
    while i < map.len()
        invariant
            i <= map.len(),
            narrowed == view_tag_map(map@).map_values(source_filtered(char_lists(prefixes@))),
            view_tag_map(kept@) == narrowed.take(i as int).filter(has_tags()),
        decreases map.len() - i,
    {
        let tags = keep_tags_with_prefix(map[i].1.as_slice(), prefixes);
        proof {
            reveal(Seq::filter);
            assert(narrowed.take(i + 1).drop_last() =~= narrowed.take(i as int));
            assert(narrowed.take(i + 1).last() == (map@[i as int].0@, views(tags@)));
        }
        if tags.len() > 0 {
            let source = map[i].0.clone();
            kept.push((source, tags));
            proof {
                assert(view_tag_map(kept@) =~= narrowed.take(i as int).filter(has_tags()).push(
                    (source@, views(tags@)),
                ));
            }
        }
        i = i + 1;
    }
    proof {
        assert(narrowed.take(i as int) =~= narrowed);
    }
    kept
}

/// The table of tags by source that `filter` lets through.
pub fn filter_tag_table(tags_map: Option<&Vec<(String, Vec<String>)>>, filter: &str) -> (kept: Option<
    Vec<(String, Vec<String>)>,
>)
    ensures
        view_opt_tag_map(kept) == filtered_tag_map(
            match tags_map {
                Some(table) => Some(view_tag_map(table@)),
                None => None,
            },
            filter@,
        ),
{
    if filter.eq("*") {
        match tags_map {
            Some(table) => Some(clone_tag_map(table)),
            None => None,
        }
    } else if filter.is_empty() {
        None
    } else {
        match tags_map {
            Some(table) => {
                let prefixes = parse_tag_prefixes(filter);
                Some(keep_sources_with_prefix(table, &prefixes))
            },
            None => None,
        }
    }
}

/// A table of tags by source as a JSON object of arrays.
pub open spec fn tag_table_json(table: Seq<(Seq<char>, Seq<Seq<char>>)>) -> JsonView {
    JsonView::Object(Seq::new(table.len(), |i: int| (table[i].0, crate::json::text_array(table[i].1))))
}

/// Builds the JSON object of a table of tags by source.
pub fn build_tag_table(table: &Vec<(String, Vec<String>)>) -> (json: Json)
    ensures
        json@ == tag_table_json(view_tag_map(table@)),
{
    let mut fields: Vec<(String, Json)> = Vec::new();
    let mut i: usize = 0;
    while i < table.len()
        invariant
            i <= table.len(),
            fields.len() == i,
            forall|j: int|
                0 <= j < i ==> fields@[j].0@ == table@[j].0@ && fields@[j].1@
                    == crate::json::text_array(views(table@[j].1@)),
        decreases table.len() - i,
    {
        let source = table[i].0.clone();
        let tags = crate::json::text_array_json(&table[i].1);
        fields.push((source, tags));
        i = i + 1;
    }
    proof {
        assert(view_fields(fields@) =~= tag_table_json(view_tag_map(table@))->Object_0);
    }
    Json::object(fields)
}

/// Filtering of tags by prefix, as the tools that report tags share it.
pub trait TagFilter {
    /// The tags that `filter` lets through: all of them for `*`, none for
    /// the empty filter, and else those that start with one of the filter's
    /// comma-separated prefixes.
    fn filter_tags(&self, tags: &[String], filter: &str) -> (kept: Vec<String>)
        ensures
            views(kept@) == filtered_tags(views(tags@), filter@),
    {
        if filter.eq("*") {
            clone_texts(tags)
        } else if filter.is_empty() {
            let kept: Vec<String> = Vec::new();
            assert(views(kept@) =~= Seq::empty());
            kept
        } else {
            let prefixes = parse_tag_prefixes(filter);
            keep_tags_with_prefix(tags, &prefixes)
        }
    }

    /// The table of tags by source that `filter` lets through.
    fn filter_tags_map(&self, tags_map: Option<&Vec<(String, Vec<String>)>>, filter: &str) -> (kept:
        Option<Vec<(String, Vec<String>)>>)
        ensures
            view_opt_tag_map(kept) == filtered_tag_map(
                match tags_map {
                    Some(table) => Some(view_tag_map(table@)),
                    None => None,
                },
                filter@,
            ),
    {
        filter_tag_table(tags_map, filter)
    }
}

/// The time range that a tool call asks for, read at two present moments,
/// one for either end: the range starts at `from`, an hour ago by default,
/// and ends at `to`, now by default. The first end that cannot be read is
/// the failure.
pub open spec fn time_range(params: JsonView, from_now: (i64, u32), to_now: (i64, u32)) -> Result<
    TimeParams,
    DatadogErrorView,
> {
    match parsed_time(params.text_or("from"@, "1 hour ago"@), from_now.0, from_now.1) {
        Err(failure) => Err(failure),
        Ok(from) => match parsed_time(params.text_or("to"@, "now"@), to_now.0, to_now.1) {
            Err(failure) => Err(failure),
            Ok(to) => Ok(TimeParams::Timestamp { from, to }),
        },
    }
}

/// What reading a time range returns, as a view.
pub open spec fn view_range(outcome: Result<TimeParams, DatadogError>) -> Result<
    TimeParams,
    DatadogErrorView,
> {
    match outcome {
        Ok(range) => Ok(range),
        Err(failure) => Err(failure@),
    }
}

/// Reads the time range of a tool call at the two given moments.
pub fn read_time_range(params: &Json, from_now: (i64, u32), to_now: (i64, u32)) -> (outcome: Result<
    TimeParams,
    DatadogError,
>)
    ensures
        view_range(outcome) == time_range(params@, from_now, to_now),
{
    let from_text = params.get_str_or("from", "1 hour ago");
    let to_text = params.get_str_or("to", "now");
    let from = match parse_time_at(from_text, from_now.0, from_now.1) {
        Ok(from) => from,
        Err(failure) => {
            return Err(failure);
        },
    };
    let to = match parse_time_at(to_text, to_now.0, to_now.1) {
        Ok(to) => to,
        Err(failure) => {
            return Err(failure);
        },
    };
    Ok(TimeParams::Timestamp { from, to })
}

/// Reading of time ranges, as the tools that take one share it.
pub trait TimeHandler {
    /// Reads the time range of a tool call at the moments that the wall
    /// clock shows: one reading for either end.
    fn parse_time(&self, params: &Json, _api_version: u8) -> (outcome: Result<
        TimeParams,
        DatadogError,
    >)
        ensures
            exists|from_now: (i64, u32), to_now: (i64, u32)|
                view_range(outcome) == #[trigger] time_range(params@, from_now, to_now),
    {
        let from_now = crate::utils::wall_clock();
        let to_now = crate::utils::wall_clock();
        let outcome = read_time_range(params, from_now, to_now);
        assert(view_range(outcome) == time_range(params@, from_now, to_now));
        outcome
    }

    /// Convert a Unix timestamp to an RFC 3339 string.
    fn timestamp_to_iso8601(&self, timestamp: i64) -> (outcome: Result<String, DatadogError>)
        ensures
            match outcome {
                Ok(text) => rfc3339_text_of(timestamp) == Some(text@),
                Err(failure) => rfc3339_text_of(timestamp) is None && failure@
                    == DatadogErrorView::InvalidInput("Invalid timestamp"@),
            },
    {
        timestamp_to_rfc3339(timestamp)
    }
}

/// The page and the page size that a tool call asks for: page zero and
/// fifty items where it names none.
pub open spec fn pagination_of(params: JsonView) -> (usize, usize) {
    (
        match params.u64_field("page"@) {
            Some(page) => page as usize,
            None => 0usize,
        },
        match params.u64_field("page_size"@) {
            Some(size) => size as usize,
            None => 50usize,
        },
    )
}

/// The items of page `page` when pages hold `page_size` items: none where
/// the page starts beyond the end.
pub open spec fn page_of<T>(data: Seq<T>, page: int, page_size: int) -> Seq<T> {
    let start = page * page_size;
    if 0 <= start < data.len() && page_size >= 0 {
        data.subrange(
            start,
            if start + page_size < data.len() {
                start + page_size
            } else {
                data.len() as int
            },
        )
    } else {
        Seq::empty()
    }
}

/// Paging through lists, as the tools that page share it.
pub trait Paginator {
    /// Parse pagination parameters.
    fn parse_pagination(&self, params: &Json) -> (pagination: (usize, usize))
        ensures
            pagination == pagination_of(params@),
    {
        let page = match params.get_u64("page") {
            Some(page) => #[verifier::truncate]
            (page as usize),
            None => 0,
        };
        let page_size = match params.get_u64("page_size") {
            Some(size) => #[verifier::truncate]
            (size as usize),
            None => 50,
        };
        (page, page_size)
    }

    /// Apply pagination to a slice of data.
    fn paginate<'a, T>(&self, data: &'a [T], page: usize, page_size: usize) -> (items: &'a [T])
        ensures
            items@ == page_of(data@, page as int, page_size as int),
    {
        let len = data.len();
        let start = match page.checked_mul(page_size) {
            Some(start) => start,
            None => {
                let items = vstd::slice::slice_subrange(data, 0, 0);
                assert(items@ =~= Seq::<T>::empty());
                return items;
            },
        };
        if start < data.len() {
            let end = match start.checked_add(page_size) {
                Some(end) => if end < data.len() {
                    end
                } else {
                    data.len()
                },
                None => data.len(),
            };
            vstd::slice::slice_subrange(data, start, end)
        } else {
            let items = vstd::slice::slice_subrange(data, 0, 0);
            assert(items@ =~= Seq::<T>::empty());
            items
        }
    }
}

/// Whether stack traces are to be truncated: always, unless the tool call
/// asks for full stack traces.
pub open spec fn truncates_stack_traces(params: JsonView) -> bool {
    params.bool_field("full_stack_trace"@) != Some(true)
}

/// A text cut to its first `max_len` bytes, with an ellipsis in place of
/// the rest; a text no longer than that is left as it is.
pub open spec fn shortened(text: Seq<char>, max_len: int) -> Seq<char> {
    if vstd::utf8::encode_utf8(text).len() <= max_len {
        text
    } else {
        vstd::utf8::decode_utf8(vstd::utf8::encode_utf8(text).subrange(0, max_len)) + "..."@
    }
}

/// Whether a text can be cut to `max_len` bytes: it is no longer than
/// that, or the cut does not fall inside a character.
pub open spec fn can_shorten(text: Seq<char>, max_len: int) -> bool {
    vstd::utf8::encode_utf8(text).len() <= max_len || vstd::utf8::is_char_boundary(
        vstd::utf8::encode_utf8(text),
        max_len,
    )
}

/// Cuts a text to its first `max_len` bytes.
pub fn shorten(text: &str, max_len: usize) -> (short: String)
    requires
        can_shorten(text@, max_len as int),
    ensures
        short@ == shortened(text@, max_len as int),
{
    if text.as_bytes().len() <= max_len {
        text.to_string()
    } else {
        let (head, _) = text.split_at(max_len);
        proof {
            vstd::utf8::encode_utf8_decode_utf8(head@);
            assert(head.spec_bytes() == vstd::utf8::encode_utf8(head@));
        }
        join(head, "...")
    }
}

/// How many line breaks there are among the first `upto` characters.
pub open spec fn breaks_before(text: Seq<char>, upto: int) -> nat
    decreases upto,
{
    if upto <= 0 || upto > text.len() {
        0
    } else {
        breaks_before(text, upto - 1) + if text[upto - 1] == '\n' {
            1nat
        } else {
            0nat
        }
    }
}

/// How many lines a text has: one more than it has line breaks.
pub open spec fn line_count(text: Seq<char>) -> nat {
    breaks_before(text, text.len() as int) + 1
}

/// Whether `cut` is where line number `lines` of the text ends: the
/// position of the line break that has `lines - 1` line breaks before it.
/// For no lines at all the cut is at the start.
pub open spec fn ends_lines(text: Seq<char>, lines: nat, cut: int) -> bool {
    if lines == 0 {
        cut == 0
    } else {
        &&& 0 <= cut < text.len()
        &&& text[cut] == '\n'
        &&& breaks_before(text, cut) == lines - 1
    }
}

/// Where line number `lines` of the text ends.
pub open spec fn end_of_lines(text: Seq<char>, lines: nat) -> int {
    choose|cut: int| ends_lines(text, lines, cut)
}

/// A stack trace cut to its first `max_lines` lines, with a last line that
/// says how many lines were left out; a trace with no more lines than
/// that is left as it is.
pub open spec fn truncated_trace(stack: Seq<char>, max_lines: nat) -> Seq<char> {
    if line_count(stack) <= max_lines {
        stack
    } else {
        stack.take(end_of_lines(stack, max_lines)) + "\n... ("@ + decimal(
            line_count(stack) - max_lines,
        ) + " more lines)"@
    }
}

/// Line breaks are counted in order.
proof fn lemma_breaks_grow(text: Seq<char>, earlier: int, later: int)
    requires
        0 <= earlier <= later <= text.len(),
    ensures
        breaks_before(text, earlier) <= breaks_before(text, later),
    decreases later - earlier,
{
    if earlier < later {
        lemma_breaks_grow(text, earlier, later - 1);
    }
}

/// A line ends in one place only.
proof fn lemma_one_end(text: Seq<char>, lines: nat, cut: int)
    requires
        ends_lines(text, lines, cut),
    ensures
        end_of_lines(text, lines) == cut,
{
    let other = end_of_lines(text, lines);
    assert(ends_lines(text, lines, other));
    if lines > 0 {
        if cut < other {
            lemma_breaks_grow(text, cut + 1, other);
        } else if other < cut {
            lemma_breaks_grow(text, other + 1, cut);
        }
    }
}

/// Cuts a stack trace to its first `max_lines` lines.
pub fn truncate_trace(stack: &str, max_lines: usize) -> (short: String)
    ensures
        short@ == truncated_trace(stack@, max_lines as nat),
{
    let chars = chars_of(stack);
    let mut breaks: usize = 0;
    let mut cut: usize = 0;
    let mut found = max_lines == 0;
    let mut i: usize = 0;
    while i < chars.len()
        invariant
            i <= chars.len(),
            chars@ == stack@,
            breaks == breaks_before(stack@, i as int),
            breaks <= i,
            found ==> ends_lines(stack@, max_lines as nat, cut as int) && cut <= i,
            found <==> max_lines == 0 || breaks >= max_lines,
        decreases chars.len() - i,
    {
        if chars[i] == '\n' {
            if !found && breaks + 1 == max_lines {
                cut = i;
                found = true;
            }
            breaks = breaks + 1;
        }
        i = i + 1;
    }
    if !found {
        return stack.to_string();
    }
    let left_out: u128 = breaks as u128 + 1 - max_lines as u128;
    let mut short = stack.substring_char(0, cut).to_string();
    short.append("\n... (");
    push_decimal_u128(&mut short, left_out);
    short.append(" more lines)");
    proof {
        lemma_one_end(stack@, max_lines as nat, cut as int);
        assert(stack@.subrange(0, cut as int) =~= stack@.take(cut as int));
        assert(short@ =~= stack@.take(cut as int) + "\n... ("@ + decimal(
            line_count(stack@) - max_lines,
        ) + " more lines)"@);
    }
    short
}

/// Trimming of verbose responses, as the tools that report traces share
/// it.
pub trait ResponseFilter {
    /// Check if stack traces should be truncated.
    fn should_truncate_stack_trace(&self, params: &Json) -> (truncate: bool)
        ensures
            truncate == truncates_stack_traces(params@),
    {
        match params.get_bool("full_stack_trace") {
            Some(full) => !full,
            None => true,
        }
    }

    /// Truncate stack trace to specified lines.
    fn truncate_stack_trace(&self, stack: &str, max_lines: usize) -> (short: String)
        ensures
            short@ == truncated_trace(stack@, max_lines as nat),
    {
        truncate_trace(stack, max_lines)
    }

    /// Remove user-agent details from HTTP attributes.
    fn filter_http_verbose_fields(&self, http: &mut Json)
        ensures
            final(http)@ == old(http)@.without_field("useragent_details"@),
    {
        http.remove_field("useragent_details");
    }

    /// Truncate long strings to `max_len` bytes. The cut must not fall
    /// inside a character.
    fn truncate_long_string(&self, s: &str, max_len: usize) -> (short: String)
        requires
            can_shorten(s@, max_len as int),
        ensures
            short@ == shortened(s@, max_len as int),
    {
        shorten(s, max_len)
    }
}

/// The envelope of a list: the data, and where given the pagination and
/// other facts about the list.
pub open spec fn list_envelope(data: JsonView, pagination: Option<JsonView>, meta: Option<JsonView>) -> JsonView {
    JsonView::Object(
        seq![("data"@, data)] + match pagination {
            Some(p) => seq![("pagination"@, p)],
            None => Seq::empty(),
        } + match meta {
            Some(m) => seq![("meta"@, m)],
            None => Seq::empty(),
        },
    )
}

/// The envelope of a single item.
pub open spec fn detail_envelope(data: JsonView) -> JsonView {
    JsonView::Object(seq![("data"@, data)])
}

/// Where a page stands: more pages follow where the pages up to and
/// including this one hold fewer items than there are in all.
pub open spec fn pagination_summary(page: usize, page_size: usize, total: usize) -> JsonView {
    JsonView::Object(
        seq![
            ("page"@, JsonView::Number(JsonNumber::PosInt(page as u64))),
            ("page_size"@, JsonView::Number(JsonNumber::PosInt(page_size as u64))),
            ("total"@, JsonView::Number(JsonNumber::PosInt(total as u64))),
            ("has_next"@, JsonView::Bool((page + 1) * page_size < total)),
        ],
    )
}

/// Envelopes of responses, as all tools share them.
pub trait ResponseFormatter {
    /// Format standard list response.
    fn format_list(&self, data: Json, pagination: Option<Json>, meta: Option<Json>) -> (envelope: Json)
        ensures
            envelope@ == list_envelope(data@, view_opt(pagination), view_opt(meta)),
    {
        let mut fields: Vec<(String, Json)> = Vec::new();
        Json::push_field(&mut fields, "data", data);
        assert(view_fields(fields@) =~= seq![("data"@, data@)]);
        match pagination {
            Some(p) => {
                Json::push_field(&mut fields, "pagination", p);
            },
            None => {},
        }
        match meta {
            Some(m) => {
                Json::push_field(&mut fields, "meta", m);
            },
            None => {},
        }
        proof {
            assert(view_fields(fields@) =~= list_envelope(
                data@,
                view_opt(pagination),
                view_opt(meta),
            )->Object_0);
        }
        Json::object(fields)
    }

    /// Format standard detail response.
    fn format_detail(&self, data: Json) -> (envelope: Json)
        ensures
            envelope@ == detail_envelope(data@),
    {
        Json::singleton("data", data)
    }

    /// Format pagination metadata.
    fn format_pagination(&self, page: usize, page_size: usize, total: usize) -> (summary: Json)
        ensures
            summary@ == pagination_summary(page, page_size, total),
    {
        assert((page + 1) * page_size <= u128::MAX) by (nonlinear_arith)
            requires
                page <= 0xffff_ffff_ffff_ffff,
                page_size <= 0xffff_ffff_ffff_ffff,
        ;
        let shown: u128 = (page as u128 + 1) * (page_size as u128);
        let has_next = shown < total as u128;
        let mut fields: Vec<(String, Json)> = Vec::new();
        Json::push_field(&mut fields, "page", Json::unsigned(page as u64));
        Json::push_field(&mut fields, "page_size", Json::unsigned(page_size as u64));
        Json::push_field(&mut fields, "total", Json::unsigned(total as u64));
        Json::push_field(&mut fields, "has_next", Json::Bool(has_next));
        proof {
            assert(view_fields(fields@) =~= pagination_summary(page, page_size, total)->Object_0);
        }
        Json::object(fields)
    }
}

/// The two ends of the time range of a tool call, in RFC 3339 form. An end
/// outside the calendar is an invalid input.
pub open spec fn rfc3339_range(params: JsonView, from_now: (i64, u32), to_now: (i64, u32)) -> Result<
    (Seq<char>, Seq<char>),
    DatadogErrorView,
> {
    match time_range(params, from_now, to_now) {
        Err(failure) => Err(failure),
        Ok(TimeParams::Timestamp { from, to }) => match rfc3339_text_of(from) {
            None => Err(DatadogErrorView::InvalidInput("Invalid timestamp"@)),
            Some(from_text) => match rfc3339_text_of(to) {
                None => Err(DatadogErrorView::InvalidInput("Invalid timestamp"@)),
                Some(to_text) => Ok((from_text, to_text)),
            },
        },
    }
}

/// Whether an outcome is the given one, seen through its view.
pub open spec fn range_is(
    outcome: Result<(String, String), DatadogError>,
    expected: Result<(Seq<char>, Seq<char>), DatadogErrorView>,
) -> bool {
    match outcome {
        Ok(range) => expected == Ok::<(Seq<char>, Seq<char>), DatadogErrorView>((range.0@, range.1@)),
        Err(failure) => expected == Err::<(Seq<char>, Seq<char>), DatadogErrorView>(failure@),
    }
}

/// Reads the time range of a tool call at the two given moments and puts
/// its ends into RFC 3339 form.
pub fn read_rfc3339_range(params: &Json, from_now: (i64, u32), to_now: (i64, u32)) -> (outcome:
    Result<(String, String), DatadogError>)
    ensures
        range_is(outcome, rfc3339_range(params@, from_now, to_now)),
{
    let (from, to) = match read_time_range(params, from_now, to_now) {
        Ok(TimeParams::Timestamp { from, to }) => (from, to),
        Err(failure) => {
            return Err(failure);
        },
    };
    let from_text = match timestamp_to_rfc3339(from) {
        Ok(text) => text,
        Err(failure) => {
            return Err(failure);
        },
    };
    let to_text = match timestamp_to_rfc3339(to) {
        Ok(text) => text,
        Err(failure) => {
            return Err(failure);
        },
    };
    Ok((from_text, to_text))
}

/// The tag filter of a tool call: the one it names, else the client's
/// default, else `*`.
pub open spec fn tag_filter_of(params: JsonView, default: Option<Seq<char>>) -> Seq<char> {
    match params.text_field("tag_filter"@) {
        Some(filter) => filter,
        None => match default {
            Some(filter) => filter,
            None => "*"@,
        },
    }
}

/// Chooses the tag filter of a tool call.
pub fn choose_tag_filter(params: &Json, default: Option<&str>) -> (filter: String)
    ensures
        filter@ == tag_filter_of(
            params@,
            match default {
                Some(text) => Some(text@),
                None => None,
            },
        ),
{
    match params.get_str("tag_filter") {
        Some(filter) => filter.to_string(),
        None => match default {
            Some(filter) => filter.to_string(),
            None => "*".to_string(),
        },
    }
}

/// A non-negative count as a JSON number.
pub open spec fn count_json(count: usize) -> JsonView {
    JsonView::Number(JsonNumber::PosInt(count as u64))
}

impl PaginationInfo {
    /// The pagination as a JSON object; the next offset is only written
    /// where there is one.
    pub open spec fn json_view(self) -> JsonView {
        JsonView::Object(
            seq![
                ("total"@, count_json(self.total)),
                ("page"@, count_json(self.page)),
                ("page_size"@, count_json(self.page_size)),
                ("has_next"@, JsonView::Bool(self.has_next)),
            ] + crate::json::opt_field(
                "next_offset"@,
                match self.next_offset {
                    Some(offset) => Some(count_json(offset)),
                    None => None,
                },
            ),
        )
    }

    /// The pagination as a JSON object.
    pub fn to_json(&self) -> (json: Json)
        ensures
            json@ == self.json_view(),
    {
        let mut fields: Vec<(String, Json)> = Vec::new();
        Json::push_field(&mut fields, "total", Json::unsigned(self.total as u64));
        Json::push_field(&mut fields, "page", Json::unsigned(self.page as u64));
        Json::push_field(&mut fields, "page_size", Json::unsigned(self.page_size as u64));
        Json::push_field(&mut fields, "has_next", Json::Bool(self.has_next));
        proof {
            assert(view_fields(fields@) =~= seq![
                ("total"@, count_json(self.total)),
                ("page"@, count_json(self.page)),
                ("page_size"@, count_json(self.page_size)),
                ("has_next"@, JsonView::Bool(self.has_next)),
            ]);
        }
        let next = match self.next_offset {
            Some(offset) => Some(Json::unsigned(offset as u64)),
            None => None,
        };
        crate::json::push_opt_field(&mut fields, "next_offset", next);
        Json::object(fields)
    }
}

/// The envelope of a page of data with its pagination.
pub open spec fn page_envelope(data: JsonView, pagination: PaginationInfo) -> JsonView {
    JsonView::Object(seq![("data"@, data), ("pagination"@, pagination.json_view())])
}

/// Builds the envelope of a page of data with its pagination.
pub fn build_page_envelope(data: Json, pagination: &PaginationInfo) -> (envelope: Json)
    ensures
        envelope@ == page_envelope(data@, *pagination),
{
    let mut fields: Vec<(String, Json)> = Vec::new();
    Json::push_field(&mut fields, "data", data);
    Json::push_field(&mut fields, "pagination", pagination.to_json());
    proof {
        assert(view_fields(fields@) =~= page_envelope(data@, *pagination)->Object_0);
    }
    Json::object(fields)
}

} // verus!
