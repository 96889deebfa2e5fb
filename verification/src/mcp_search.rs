//! Searching the tools of connected servers.

use crate::error::{answers, config_error, RuntimeError, Verdict};
use crate::json::{json_pointer_keys, pointer_keys};
use crate::ranking::{
    equal_fronts_stay_equal, first_items, in_order, insert_ranked, inserted, later_items_do_not_count, ranked,
    ranking_orders_all_items, the_best_need_only_the_best, Ranked,
};
use crate::text::{
    bounded, characters, containing_is_standing_between, contains, contains_text, first_chars, lowercase, lowered,
    lowering_changes_capitals_alone, optional_view, parts_are_contained, same_text, views,
};
use vstd::prelude::*;
use vstd::string::*;
use vstd::utf8::*;

verus! {

/// Most results of a search.
pub const MAX_SEARCH_RESULTS: usize = 10;

/// Most results that are kept of one server.
pub const MAX_SERVER_RESULTS: usize = 11;

/// Most unavailable servers that are named.
pub const MAX_UNAVAILABLE_NAMES: usize = 32;

/// Most bytes of the rendered results.
pub const MAX_SEARCH_OUTPUT: usize = 0x8000;

/// A character is a letter or a number, of any script.
pub uninterp spec fn letter_or_number(c: char) -> bool;

/// `char::is_alphanumeric` of std: named; of the ASCII characters it holds of letters and digits.
#[verifier::external_body]
fn is_letter_or_number(c: char) -> (yes: bool)
    ensures
        yes == letter_or_number(c),
        (c as u32) < 128 ==> yes == crate::text::is_alphanumeric(c),
{
    c.is_alphanumeric()
}

/// The pieces of a text between characters that are neither letters nor numbers; at least one.
pub open spec fn term_pieces(text: Seq<char>) -> Seq<Seq<char>>
    decreases text.len(),
{
    if text.len() == 0 {
        seq![Seq::<char>::empty()]
    } else {
        let before = term_pieces(text.drop_last());
        if letter_or_number(text.last()) {
            before.drop_last().push(before.last().push(text.last()))
        } else {
            before.push(Seq::<char>::empty())
        }
    }
}

/// The pieces of more than one byte, with small letters.
pub open spec fn kept_terms(list: Seq<Seq<char>>) -> Seq<Seq<char>>
    decreases list.len(),
{
    if list.len() == 0 {
        list
    } else if encode_utf8(list.last()).len() > 1 {
        kept_terms(list.drop_last()).push(lowered(list.last()))
    } else {
        kept_terms(list.drop_last())
    }
}

/// The terms of a query.
pub open spec fn terms_of(query: Seq<char>) -> Seq<Seq<char>> {
    kept_terms(term_pieces(query))
}

fn keep_term(list: &mut Vec<String>, piece: &str)
    ensures
        views(final(list)@) == if encode_utf8(piece@).len() > 1 {
            views(old(list)@).push(lowered(piece@))
        } else {
            views(old(list)@)
        },
{
    let ghost before = list@;
    if piece.as_bytes().len() > 1 {
        list.push(lowercase(piece));
        proof {
            assert(views(list@) =~= views(before).push(lowered(piece@)));
        }
    }
}

/// The terms of a query: its words of more than one byte, with small letters.
pub fn search_terms(query: &str) -> (terms: Vec<String>)
    ensures
        views(terms@) == terms_of(query@),
{
    let chars = characters(query);
    let mut terms: Vec<String> = Vec::new();
    let mut current = String::new();
    let ghost mut done = Seq::<Seq<char>>::empty();
    let mut i: usize = 0;
    proof {
        assert(done.push(current@) =~= term_pieces(query@.take(0)));
        assert(views(terms@) =~= kept_terms(done));
    }
    while i < chars.len()
        invariant
            chars@ == query@,
            i <= chars@.len(),
            done.push(current@) == term_pieces(query@.take(i as int)),
            views(terms@) == kept_terms(done),
        decreases chars@.len() - i,
    {
        proof {
            assert(query@.take(i + 1).drop_last() =~= query@.take(i as int));
            assert(done.push(current@).drop_last() =~= done);
        }
        if is_letter_or_number(chars[i]) {
            current.push(chars[i]);
        } else {
            let ghost finished = current@;
            keep_term(&mut terms, current.as_str());
            current = String::new();
            proof {
                assert(done.push(finished).drop_last() =~= done);
                done = done.push(finished);
            }
        }
        i = i + 1;
    }
    proof {
        assert(query@.take(i as int) =~= query@);
        assert(done.push(current@).drop_last() =~= done);
    }
    keep_term(&mut terms, current.as_str());
    terms
}

/// A tool of a connected server. The schema of its input is a JSON document.
#[derive(Debug)]
pub struct McpToolSummary {
    pub server: String,
    pub name: String,
    pub title: Option<String>,
    pub description: Option<String>,
    pub input_schema: String,
}

/// A text with small letters; empty where there is none.
pub open spec fn folded(text: Option<String>) -> Seq<char> {
    match text {
        Some(value) => lowered(value@),
        None => Seq::empty(),
    }
}

/// A term stands in one of the names, whose letters count as small.
pub open spec fn in_any(names: Seq<Seq<char>>, term: Seq<char>) -> bool {
    exists|i: int| 0 <= i < names.len() && contains_text(lowered(#[trigger] names[i]), term)
}

/// How well a tool fits one term.
pub open spec fn term_score(tool: McpToolSummary, argument_names: Seq<Seq<char>>, term: Seq<char>) -> int {
    let name = lowered(tool.name@);
    (if name == term {
        24int
    } else if contains_text(name, term) {
        12int
    } else {
        0int
    }) + (if contains_text(folded(tool.title), term) {
        5int
    } else {
        0int
    }) + (if contains_text(folded(tool.description), term) {
        2int
    } else {
        0int
    }) + (if in_any(argument_names, term) {
        3int
    } else {
        0int
    })
}

/// How well a tool fits all terms.
pub open spec fn total_score(tool: McpToolSummary, argument_names: Seq<Seq<char>>, terms: Seq<Seq<char>>) -> int
    decreases terms.len(),
{
    if terms.len() == 0 {
        0
    } else {
        total_score(tool, argument_names, terms.drop_last()) + term_score(tool, argument_names, terms.last())
    }
}

/// Most terms whose scores fit together.
pub const MAX_TERMS: usize = 0x0787_8787;

fn any_contains(names: &Vec<String>, term: &str) -> (found: bool)
    ensures
        found == in_any(views(names@), term@),
{
    let mut i: usize = 0;
    while i < names.len()
        invariant
            i <= names@.len(),
            forall|j: int| 0 <= j < i ==> !contains_text(lowered(#[trigger] views(names@)[j]), term@),
        decreases names@.len() - i,
    {
        let folded = lowercase(names[i].as_str());
        proof {
            assert(views(names@)[i as int] == names@[i as int]@);
        }
        if contains(folded.as_str(), term) {
            return true;
        }
        i = i + 1;
    }
    false
}

fn fold(text: &Option<String>) -> (result: String)
    ensures
        result@ == folded(*text),
{
    match text {
        Some(value) => lowercase(value.as_str()),
        None => String::new(),
    }
}

/// How well a tool with these arguments fits the terms: its name counts most, then its title, its
/// arguments and its description.
pub fn score_with_arguments(tool: &McpToolSummary, argument_names: &Vec<String>, terms: &Vec<String>) -> (score: u32)
    requires
        terms@.len() <= MAX_TERMS,
    ensures
        score == total_score(*tool, views(argument_names@), views(terms@)),
{
    let name = lowercase(tool.name.as_str());
    let title = fold(&tool.title);
    let description = fold(&tool.description);
    let mut score: u32 = 0;
    let mut i: usize = 0;
    while i < terms.len()
        invariant
            i <= terms@.len(),
            terms@.len() <= MAX_TERMS,
            name@ == lowered(tool.name@),
            title@ == folded(tool.title),
            description@ == folded(tool.description),
            score == total_score(*tool, views(argument_names@), views(terms@).take(i as int)),
            score <= 34 * i,
        decreases terms@.len() - i,
    {
        let term = terms[i].as_str();
        let by_name: u32 = if same_text(name.as_str(), term) {
            24
        } else if contains(name.as_str(), term) {
            12
        } else {
            0
        };
        let by_title: u32 = if contains(title.as_str(), term) {
            5
        } else {
            0
        };
        let by_description: u32 = if contains(description.as_str(), term) {
            2
        } else {
            0
        };
        let by_arguments: u32 = if any_contains(argument_names, term) {
            3
        } else {
            0
        };
        proof {
            assert(views(terms@).take(i + 1).drop_last() =~= views(terms@).take(i as int));
            assert(views(terms@).take(i + 1).last() == term@);
        }
        score = score + by_name + by_title + by_description + by_arguments;
        i = i + 1;
    }
    proof {
        assert(views(terms@).take(i as int) =~= views(terms@));
    }
    score
}

/// The names of the arguments that a schema states.
pub open spec fn stated_arguments(schema: Seq<char>) -> Seq<Seq<char>> {
    match json_pointer_keys(encode_utf8(schema), "/properties"@) {
        Some(keys) => keys,
        None => Seq::empty(),
    }
}

/// How well a tool fits the terms, by its name, title and description and by the names of the
/// arguments that its schema states.
pub fn mcp_search_score(tool: &McpToolSummary, terms: &Vec<String>) -> (score: u32)
    requires
        terms@.len() <= MAX_TERMS,
    ensures
        score == total_score(*tool, stated_arguments(tool.input_schema@), views(terms@)),
{
    let argument_names = match pointer_keys(tool.input_schema.as_str().as_bytes(), "/properties") {
        Some(keys) => keys,
        None => Vec::new(),
    };
    proof {
        assert(views(Seq::<String>::empty()) =~= Seq::<Seq<char>>::empty());
    }
    score_with_arguments(tool, &argument_names, terms)
}

/// A tool that a search found.
#[derive(Debug)]
pub struct McpSearchHit {
    pub server: String,
    pub name: String,
    pub title: Option<String>,
    pub description: Option<String>,
    pub score: u32,
}

impl Ranked for McpSearchHit {
    open spec fn fit(&self) -> u64 {
        self.score as u64
    }

    open spec fn group(&self) -> Seq<char> {
        self.server@
    }

    open spec fn label(&self) -> Seq<char> {
        self.name@
    }

    fn score_value(&self) -> (score: u64) {
        self.score as u64
    }

    fn group_text(&self) -> (text: &str) {
        self.server.as_str()
    }

    fn label_text(&self) -> (text: &str) {
        self.name.as_str()
    }
}

/// A text cut after so many characters.
pub open spec fn cut(text: Option<String>, limit: nat) -> Option<Seq<char>> {
    match text {
        Some(value) => Some(first_chars(value@, limit)),
        None => None,
    }
}

/// What a search shows of a tool.
pub open spec fn hit_of(hit: McpSearchHit, tool: McpToolSummary, score: u32) -> bool {
    &&& hit.server == tool.server
    &&& hit.name == tool.name
    &&& optional_view(hit.title) == cut(tool.title, 128)
    &&& optional_view(hit.description) == cut(tool.description, 512)
    &&& hit.score == score
}

fn cut_text(text: &Option<String>, limit: usize) -> (result: Option<String>)
    ensures
        optional_view(result) == cut(*text, limit as nat),
{
    match text {
        Some(value) => Some(bounded(value.as_str(), limit)),
        None => None,
    }
}

impl McpSearchHit {
    /// What a search shows of a tool: the first 128 characters of its title and the first 512 of its
    /// description.
    pub fn new(tool: McpToolSummary, score: u32) -> (hit: Self)
        ensures
            hit_of(hit, tool, score),
    {
        let title = cut_text(&tool.title, 128);
        let description = cut_text(&tool.description, 512);
        McpSearchHit { server: tool.server, name: tool.name, title, description, score }
    }
}

/// Adds a tool of one server to what was found there: tools that fit no term are kept only where the
/// server was selected. The best 11 stay, in order.
pub fn visit_tool(hits: &mut Vec<McpSearchHit>, tool: McpToolSummary, terms: &Vec<String>, selected: bool)
    requires
        terms@.len() <= MAX_TERMS,
    ensures
        ({
            let score = total_score(tool, stated_arguments(tool.input_schema@), views(terms@));
            if score > 0 || selected {
                exists|hit: McpSearchHit|
                    #[trigger] hit_of(hit, tool, score as u32) && final(hits)@ == first_items(
                        inserted(old(hits)@, hit, false),
                        MAX_SERVER_RESULTS as nat,
                    )
            } else {
                final(hits)@ == old(hits)@
            }
        }),
{
    let score: u32 = mcp_search_score(&tool, terms);
    if score > 0 || selected {
        let hit = McpSearchHit::new(tool, score);
        let ghost added = hit;
        insert_ranked(hits, hit, false);
        let ghost whole = hits@;
        if hits.len() > MAX_SERVER_RESULTS {
            hits.truncate(MAX_SERVER_RESULTS);
        }
        proof {
            let total = total_score(tool, stated_arguments(tool.input_schema@), views(terms@));
            assert(hits@ =~= first_items(whole, MAX_SERVER_RESULTS as nat));
            assert(total as u32 == score);
            assert(hit_of(added, tool, total as u32));
        }
    }
}

/// The servers that a search goes through: the selected one, else all.
pub fn searched_servers(selected: &Option<String>, names: Vec<String>) -> (servers: Vec<String>)
    ensures
        match *selected {
            Some(name) => servers@ == seq![name],
            None => servers == names,
        },
{
    match selected {
        Some(name) => vec![name.clone()],
        None => names,
    }
}

/// What came back from one server.
#[derive(Debug)]
pub struct ServerSearch {
    pub server: String,
    pub outcome: Result<(), RuntimeError>,
    pub hits: Vec<McpSearchHit>,
}

/// The tools of the servers that answered, in the order of the answers.
pub open spec fn all_hits(results: Seq<ServerSearch>) -> Seq<McpSearchHit>
    decreases results.len(),
{
    if results.len() == 0 {
        Seq::empty()
    } else {
        let before = all_hits(results.drop_last());
        if results.last().outcome is Ok {
            before + results.last().hits@
        } else {
            before
        }
    }
}

/// The servers that did not answer.
pub open spec fn failed_servers(results: Seq<ServerSearch>) -> Seq<Seq<char>>
    decreases results.len(),
{
    if results.len() == 0 {
        Seq::empty()
    } else {
        let before = failed_servers(results.drop_last());
        if results.last().outcome is Err {
            before.push(results.last().server@)
        } else {
            before
        }
    }
}

/// The first failure.
pub open spec fn first_failure(results: Seq<ServerSearch>) -> Option<RuntimeError>
    decreases results.len(),
{
    if results.len() == 0 {
        None
    } else {
        match first_failure(results.drop_last()) {
            Some(error) => Some(error),
            None => match results.last().outcome {
                Err(error) => Some(error),
                Ok(_) => None,
            },
        }
    }
}

/// What a search hands back.
#[derive(Debug)]
pub struct SearchReport {
    pub tools: Vec<McpSearchHit>,
    pub truncated: bool,
    /// The first unavailable servers.
    pub unavailable: Vec<String>,
    pub unavailable_count: usize,
}

/// How many results a search hands back.
pub open spec fn result_limit(max_results: u64) -> int {
    if max_results == 0 {
        1
    } else if max_results > MAX_SEARCH_RESULTS {
        MAX_SEARCH_RESULTS as int
    } else {
        max_results as int
    }
}

fn insert_hits(list: &mut Vec<McpSearchHit>, hits: Vec<McpSearchHit>, Ghost(items): Ghost<Seq<McpSearchHit>>)
    requires
        old(list)@ == ranked(items, true),
    ensures
        final(list)@ == ranked(items + hits@, true),
{
    let mut rest = hits;
    let ghost all = rest@;
    let ghost mut taken = items;
    proof {
        assert(items + all.take(0) =~= items);
    }
    let total: usize = rest.len();
    let mut i: usize = 0;
    while i < total
        invariant
            i <= total,
            total == all.len(),
            rest@ == all.skip(i as int),
            taken == items + all.take(i as int),
            list@ == ranked(taken, true),
        decreases total - i,
    {
        let hit = rest.remove(0);
        proof {
            assert(hit == all[i as int]);
            let longer = taken.push(hit);
            assert(longer.drop_last() =~= taken);
            assert(items + all.take(i + 1) =~= longer);
            assert(rest@ =~= all.skip(i + 1));
            taken = longer;
        }
        insert_ranked(list, hit, true);
        i = i + 1;
    }
    proof {
        assert(all.take(i as int) =~= all);
    }
}

/// Puts together what came back: the best tools of all servers. Where one server was selected its
/// failure is that of the search; else servers that failed are counted, and the first 32 named.
pub fn merge_search(results: Vec<ServerSearch>, selected: bool, max_results: u64) -> (report: Result<
    SearchReport,
    RuntimeError,
>)
    ensures
        match (selected, first_failure(results@)) {
            (true, Some(error)) => report == Err::<SearchReport, RuntimeError>(error),
            _ => report matches Ok(found) && {
                let hits = ranked(all_hits(results@), true);
                &&& found.tools@ == first_items(hits, result_limit(max_results) as nat)
                &&& found.truncated == (hits.len() > result_limit(max_results))
                &&& views(found.unavailable@) == first_items(failed_servers(results@), MAX_UNAVAILABLE_NAMES as nat)
                &&& found.unavailable_count == failed_servers(results@).len()
            },
        },
{
    let ghost all = results@;
    let mut rest = results;
    let total: usize = rest.len();
    let mut tools: Vec<McpSearchHit> = Vec::new();
    let mut unavailable: Vec<String> = Vec::new();
    let mut unavailable_count: usize = 0;
    let mut i: usize = 0;
    proof {
        assert(views(unavailable@) =~= Seq::<Seq<char>>::empty());
        assert(first_items(failed_servers(all.take(0)), 32) =~= Seq::<Seq<char>>::empty());
    }
    while i < total
        invariant
            i <= total,
            total == all.len(),
            rest@ == all.skip(i as int),
            tools@ == ranked(all_hits(all.take(i as int)), true),
            views(unavailable@) == first_items(failed_servers(all.take(i as int)), MAX_UNAVAILABLE_NAMES as nat),
            unavailable_count == failed_servers(all.take(i as int)).len(),
            unavailable_count <= i,
            selected ==> first_failure(all.take(i as int)) is None,
            all == results@,
        decreases total - i,
    {
        let item = rest.remove(0);
        proof {
            assert(item == all[i as int]);
            assert(rest@ =~= all.skip(i + 1));
            assert(all.take(i + 1).drop_last() =~= all.take(i as int));
            assert(all.take(i + 1).last() == item);
        }
        match item.outcome {
            Ok(_) => {
                insert_hits(&mut tools, item.hits, Ghost(all_hits(all.take(i as int))));
            },
            Err(error) => {
                if selected {
                    proof {
                        failure_stays(all, i + 1);
                    }
                    return Err(error);
                }
                let ghost named = unavailable@;
                unavailable_count = unavailable_count + 1;
                if unavailable.len() < MAX_UNAVAILABLE_NAMES {
                    unavailable.push(item.server);
                    proof {
                        assert(views(unavailable@) =~= views(named).push(item.server@));
                    }
                }
                proof {
                    assert(views(unavailable@) =~= first_items(failed_servers(all.take(i + 1)), 32));
                }
            },
        }
        i = i + 1;
    }
    proof {
        assert(all.take(i as int) =~= all);
    }
    let limit: usize = if max_results == 0 {
        1
    } else if max_results > MAX_SEARCH_RESULTS as u64 {
        MAX_SEARCH_RESULTS
    } else {
        max_results as usize
    };
    let truncated = tools.len() > limit;
    let ghost whole = tools@;
    if truncated {
        tools.truncate(limit);
    }
    proof {
        assert(tools@ =~= first_items(whole, limit as nat));
    }
    Ok(SearchReport { tools, truncated, unavailable, unavailable_count })
}

/// A failure among the first results is the first failure of all.
proof fn failure_stays(results: Seq<ServerSearch>, count: int)
    requires
        0 <= count <= results.len(),
        first_failure(results.take(count)) is Some,
    ensures
        first_failure(results) == first_failure(results.take(count)),
    decreases results.len() - count,
{
    if count < results.len() {
        assert(results.take(count + 1).drop_last() =~= results.take(count));
        failure_stays(results, count + 1);
    } else {
        assert(results.take(count) =~= results);
    }
}

/// Accepts the rendered results of a search, by their length in bytes.
pub fn accept_search_output(length: usize) -> (result: Result<(), RuntimeError>)
    ensures
        answers(
            result,
            if length > MAX_SEARCH_OUTPUT {
                Verdict::Reject("MCP search output exceeded its bound"@)
            } else {
                Verdict::Accept
            },
        ),
{
    if length > MAX_SEARCH_OUTPUT {
        return config_error("MCP search output exceeded its bound");
    }
    Ok(())
}

/// A tool fits a query exactly where one of the terms stands in its name, its title, its description
/// or the name of one of its arguments: words that stand nowhere do not count against it.
pub proof fn a_single_term_suffices(tool: McpToolSummary, argument_names: Seq<Seq<char>>, terms: Seq<Seq<char>>)
    ensures
        total_score(tool, argument_names, terms) > 0 <==> exists|i: int|
            0 <= i < terms.len() && mentions(tool, argument_names, #[trigger] terms[i]),
        total_score(tool, argument_names, terms) >= 0,
    decreases terms.len(),
{
    if terms.len() > 0 {
        let before = terms.drop_last();
        a_single_term_suffices(tool, argument_names, before);
        if total_score(tool, argument_names, before) > 0 {
            let i = choose|i: int| 0 <= i < before.len() && mentions(tool, argument_names, #[trigger] before[i]);
            assert(mentions(tool, argument_names, terms[i]));
        }
        if lowered(tool.name@) == terms.last() {
            assert(crate::text::occurs_at(lowered(tool.name@), terms.last(), 0)) by {
                assert(lowered(tool.name@).subrange(0, terms.last().len() as int) =~= terms.last());
            }
        }
        if term_score(tool, argument_names, terms.last()) > 0 {
            assert(mentions(tool, argument_names, terms[terms.len() - 1]));
        }
        if exists|i: int| 0 <= i < terms.len() && mentions(tool, argument_names, #[trigger] terms[i]) {
            let i = choose|i: int| 0 <= i < terms.len() && mentions(tool, argument_names, #[trigger] terms[i]);
            if i < before.len() {
                assert(before[i] == terms[i]);
            }
        }
    }
}

/// A term stands in what is known of a tool.
pub open spec fn mentions(tool: McpToolSummary, argument_names: Seq<Seq<char>>, term: Seq<char>) -> bool {
    contains_text(lowered(tool.name@), term) || contains_text(folded(tool.title), term) || contains_text(
        folded(tool.description),
        term,
    ) || in_any(argument_names, term)
}

/// Visiting a tool leaves the best 11 of all tools that were found at a server, as if none had been
/// dropped before.
pub proof fn visits_keep_the_best(found: Seq<McpSearchHit>, hit: McpSearchHit)
    ensures
        first_items(
            inserted(first_items(ranked(found, false), MAX_SERVER_RESULTS as nat), hit, false),
            MAX_SERVER_RESULTS as nat,
        ) == first_items(ranked(found.push(hit), false), MAX_SERVER_RESULTS as nat),
{
    the_best_need_only_the_best(found, hit, MAX_SERVER_RESULTS as nat, false);
}

/// One answer holds the best 11 of what the other holds in full, which is in order and of one server.
pub open spec fn cut_answer(cut: ServerSearch, whole: ServerSearch) -> bool {
    &&& cut.server == whole.server
    &&& cut.outcome == whole.outcome
    &&& cut.hits@ == first_items(whole.hits@, MAX_SERVER_RESULTS as nat)
    &&& in_order(whole.hits@, false)
    &&& forall|i: int| 0 <= i < whole.hits@.len() ==> (#[trigger] whole.hits@[i]).server@ == whole.server@
}

/// Keeping only the best 11 tools of every server loses nothing: a search hands back the same tools as
/// from all that were found, and says the same of whether there are more, and of the servers that
/// failed.
pub proof fn keeping_the_best_loses_nothing(cut: Seq<ServerSearch>, whole: Seq<ServerSearch>, max_results: u64)
    requires
        cut.len() == whole.len(),
        forall|i: int| 0 <= i < cut.len() ==> cut_answer(#[trigger] cut[i], whole[i]),
    ensures
        first_items(ranked(all_hits(cut), true), result_limit(max_results) as nat) == first_items(
            ranked(all_hits(whole), true),
            result_limit(max_results) as nat,
        ),
        (ranked(all_hits(cut), true).len() > result_limit(max_results)) == (ranked(all_hits(whole), true).len()
            > result_limit(max_results)),
        failed_servers(cut) == failed_servers(whole),
        first_failure(cut) == first_failure(whole),
    decreases cut.len(),
{
    let limit = result_limit(max_results) as nat;
    ranking_orders_all_items(all_hits(cut), true);
    ranking_orders_all_items(all_hits(whole), true);
    if cut.len() > 0 {
        let a = cut.drop_last();
        let b = whole.drop_last();
        assert forall|i: int| 0 <= i < a.len() implies cut_answer(#[trigger] a[i], b[i]) by {
            assert(a[i] == cut[i] && b[i] == whole[i]);
        }
        keeping_the_best_loses_nothing(a, b, max_results);
        ranking_orders_all_items(all_hits(a), true);
        ranking_orders_all_items(all_hits(b), true);
        assert(cut_answer(cut[cut.len() - 1], whole[cut.len() - 1]));
        let some = cut.last().hits@;
        let all = whole.last().hits@;
        if cut.last().outcome is Ok {
            assert forall|i: int, j: int| 0 <= i < j < all.len() implies !crate::ranking::ranks_before(
                #[trigger] all[j],
                #[trigger] all[i],
                true,
            ) by {
                assert(!crate::ranking::ranks_before(all[j], all[i], false));
                assert(all[j].group() == all[i].group());
            }
            later_items_do_not_count(all_hits(a), all, MAX_SERVER_RESULTS as nat, limit, true);
            equal_fronts_stay_equal(all_hits(a), all_hits(b), all, limit, true);
            assert(all_hits(cut) == all_hits(a) + some);
            assert(all_hits(whole) == all_hits(b) + all);
        }
    }
}

/// The score of a tool adds up over the terms: for two lists of terms one after the other it is the sum
/// of the scores for each, and for no term it is nothing.
pub proof fn scores_add_up(
    tool: McpToolSummary,
    argument_names: Seq<Seq<char>>,
    first: Seq<Seq<char>>,
    second: Seq<Seq<char>>,
)
    ensures
        total_score(tool, argument_names, first + second) == total_score(tool, argument_names, first) + total_score(
            tool,
            argument_names,
            second,
        ),
        total_score(tool, argument_names, Seq::empty()) == 0,
        total_score(tool, argument_names, first) >= 0,
    decreases second.len(), first.len(),
{
    if second.len() == 0 {
        assert(first + second == first);
        if first.len() > 0 {
            scores_add_up(tool, argument_names, first.drop_last(), second);
        }
    } else {
        assert((first + second).drop_last() == first + second.drop_last());
        scores_add_up(tool, argument_names, first, second.drop_last());
    }
}

/// A further term that the tool mentions raises its score, and one that it does not mention changes
/// nothing, whatever the other terms are and wherever the term stands among them.
pub proof fn further_matches_score_more(
    tool: McpToolSummary,
    argument_names: Seq<Seq<char>>,
    before: Seq<Seq<char>>,
    term: Seq<char>,
    after: Seq<Seq<char>>,
)
    ensures
        mentions(tool, argument_names, term) <==> total_score(tool, argument_names, before + seq![term] + after)
            > total_score(tool, argument_names, before + after),
        !mentions(tool, argument_names, term) <==> total_score(tool, argument_names, before + seq![term] + after)
            == total_score(tool, argument_names, before + after),
{
    let one = seq![term];
    let none = Seq::<Seq<char>>::empty();
    scores_add_up(tool, argument_names, before + one, after);
    scores_add_up(tool, argument_names, before, one);
    scores_add_up(tool, argument_names, before, after);
    scores_add_up(tool, argument_names, none, one);
    assert(one.drop_last() == none);
    assert(total_score(tool, argument_names, one) == term_score(tool, argument_names, term));
    if lowered(tool.name@) == term {
        containing_is_standing_between(term, term);
        assert(none.len() == 0);
        let empty = Seq::<char>::empty();
        assert((empty + term) + empty == term);
        assert(contains_text(lowered(tool.name@), term));
    }
}

/// A tool that is called by the term scores twice what one scores whose name only holds it; a match in
/// the name counts more than one in the title, an argument and the description together, and those
/// count in that order.
pub proof fn names_outweigh_the_rest(tool: McpToolSummary, argument_names: Seq<Seq<char>>, term: Seq<char>)
    ensures
        ({
            let name = lowered(tool.name@);
            let score = term_score(tool, argument_names, term);
            let title: int = if tool.title matches Some(title) && contains_text(lowered(title@), term) {
                5
            } else {
                0
            };
            let description: int = if tool.description matches Some(text) && contains_text(lowered(text@), term) {
                2
            } else {
                0
            };
            let argument: int = if exists|i: int|
                0 <= i < argument_names.len() && contains_text(lowered(#[trigger] argument_names[i]), term) {
                3
            } else {
                0
            };
            &&& term.len() > 0 && name == term ==> score == 24 + title + description + argument
            &&& term.len() > 0 && name != term && contains_text(name, term) ==> score == 12 + title + description
                + argument
            &&& term.len() > 0 && !contains_text(name, term) ==> score == title + description + argument
        }),
{
    let empty = Seq::<char>::empty();
    if term.len() > 0 {
        assert(!contains_text(empty, term));
        assert((empty + term) + empty == term);
        parts_are_contained(empty, term, empty);
    }
}

/// Case does not count: a tool scores the same whatever the case of the letters in its name.
pub proof fn case_does_not_count(
    first: McpToolSummary,
    second: McpToolSummary,
    argument_names: Seq<Seq<char>>,
    terms: Seq<Seq<char>>,
)
    requires
        lowered(first.name@) == lowered(second.name@),
        folded(first.title) == folded(second.title),
        folded(first.description) == folded(second.description),
    ensures
        total_score(first, argument_names, terms) == total_score(second, argument_names, terms),
    decreases terms.len(),
{
    if terms.len() > 0 {
        case_does_not_count(first, second, argument_names, terms.drop_last());
    }
}

/// A hit shows its tool: the server and the name as they are, the beginnings of title and description,
/// and the score.
pub proof fn hits_show_their_tool(hit: McpSearchHit, tool: McpToolSummary, score: u32)
    requires
        hit_of(hit, tool, score),
    ensures
        hit.server == tool.server,
        hit.name == tool.name,
        hit.score == score,
        hit.fit() == score,
        hit.group() == tool.server@,
        hit.label() == tool.name@,
        hit.title is Some <==> tool.title is Some,
        hit.description is Some <==> tool.description is Some,
        tool.title is Some ==> hit.title->0@.is_prefix_of(tool.title->0@),
        tool.title is Some && tool.title->0@.len() <= 128 ==> hit.title->0@ == tool.title->0@,
        tool.description is Some ==> hit.description->0@.is_prefix_of(tool.description->0@),
        tool.description is Some && tool.description->0@.len() <= 512 ==> hit.description->0@ == tool.description->0@,
{
}

/// Every server that answered brings in all its hits, every one that failed is named, and the failures
/// are as many as the servers that failed; none is both.
pub proof fn servers_answer_or_are_named(results: Seq<ServerSearch>, at: int)
    requires
        0 <= at < results.len(),
    ensures
        results[at].outcome is Ok ==> forall|i: int|
            0 <= i < results[at].hits@.len() ==> all_hits(results).contains(#[trigger] results[at].hits@[i]),
        results[at].outcome is Err ==> failed_servers(results).contains(results[at].server@),
        results[at].outcome is Err ==> first_failure(results) is Some,
        failed_servers(results).len() > 0 <==> first_failure(results) is Some,
    decreases results.len(),
{
    let front = results.drop_last();
    if front.len() > 0 {
        servers_answer_or_are_named(
            front,
            if at < front.len() {
                at
            } else {
                0
            },
        );
    }
    let hits = all_hits(front);
    let names = failed_servers(front);
    if front.len() == 0 {
        assert(first_failure(front) is None);
    }
    if at < front.len() {
        if results[at].outcome is Ok {
            assert forall|i: int| 0 <= i < results[at].hits@.len() implies all_hits(results).contains(
                #[trigger] results[at].hits@[i],
            ) by {
                assert(front[at] == results[at]);
                let j = choose|j: int| 0 <= j < hits.len() && hits[j] == front[at].hits@[i];
                assert(hits.contains(front[at].hits@[i]));
                assert(all_hits(results)[j] == results[at].hits@[i]);
            }
        } else {
            assert(front[at] == results[at]);
            let j = choose|j: int| 0 <= j < names.len() && names[j] == front[at].server@;
            assert(failed_servers(results)[j] == results[at].server@);
        }
    } else {
        if results[at].outcome is Ok {
            assert forall|i: int| 0 <= i < results[at].hits@.len() implies all_hits(results).contains(
                #[trigger] results[at].hits@[i],
            ) by {
                assert(all_hits(results)[hits.len() + i] == results[at].hits@[i]);
            }
        } else {
            assert(failed_servers(results)[names.len() as int] == results[at].server@);
        }
    }
}

/// The failure that a search of one server reports is that server's.
pub proof fn the_first_failure_is_reported(result: ServerSearch)
    ensures
        first_failure(seq![result]) == match result.outcome {
            Ok(_) => None,
            Err(error) => Some(error),
        },
        all_hits(seq![result]) == if result.outcome is Ok {
            result.hits@
        } else {
            Seq::empty()
        },
{
    assert(seq![result].drop_last() == Seq::<ServerSearch>::empty());
    assert(first_failure(Seq::<ServerSearch>::empty()) is None);
    assert(all_hits(Seq::<ServerSearch>::empty()) + result.hits@ == result.hits@);
}

/// At least one result is shown and at most ten, and within those bounds as many as were asked for.
pub proof fn results_are_limited(max_results: u64)
    ensures
        1 <= result_limit(max_results) <= 10,
        1 <= max_results <= 10 ==> result_limit(max_results) == max_results,
        max_results > 10 ==> result_limit(max_results) == 10,
{
}

/// Terms are nonempty parts of the query in lower case, longer than one byte.
pub proof fn terms_are_folded(query: Seq<char>, i: int)
    requires
        0 <= i < terms_of(query).len(),
    ensures
        lowered(terms_of(query)[i]) == terms_of(query)[i],
        exists|piece: Seq<char>| #[trigger]
            term_pieces(query).contains(piece) && lowered(piece) == terms_of(query)[i] && encode_utf8(piece).len() > 1,
{
    terms_come_from_pieces(term_pieces(query), i);
    let piece = choose|piece: Seq<char>| #[trigger]
        term_pieces(query).contains(piece) && lowered(piece) == kept_terms(term_pieces(query))[i] && encode_utf8(
            piece,
        ).len() > 1;
    if piece.len() > 0 {
        lowering_changes_capitals_alone(piece, 0);
    } else {
        assert(lowered(lowered(piece)) == lowered(piece));
    }
}

proof fn terms_come_from_pieces(list: Seq<Seq<char>>, i: int)
    requires
        0 <= i < kept_terms(list).len(),
    ensures
        exists|piece: Seq<char>| #[trigger]
            list.contains(piece) && lowered(piece) == kept_terms(list)[i] && encode_utf8(piece).len() > 1,
    decreases list.len(),
{
    let front = kept_terms(list.drop_last());
    if i < front.len() {
        terms_come_from_pieces(list.drop_last(), i);
        let piece = choose|piece: Seq<char>| #[trigger]
            list.drop_last().contains(piece) && lowered(piece) == front[i] && encode_utf8(piece).len() > 1;
        let at = choose|at: int| 0 <= at < list.drop_last().len() && list.drop_last()[at] == piece;
        assert(list[at] == piece);
        assert(list.contains(piece));
        assert(kept_terms(list)[i] == front[i]);
    } else {
        assert(list[list.len() - 1] == list.last());
        assert(list.contains(list.last()));
    }
}

/// Every piece of the query that is longer than one byte is searched for.
pub proof fn no_term_is_dropped(query: Seq<char>, at: int)
    requires
        0 <= at < term_pieces(query).len(),
        encode_utf8(term_pieces(query)[at]).len() > 1,
    ensures
        terms_of(query).contains(lowered(term_pieces(query)[at])),
{
    long_pieces_are_kept(term_pieces(query), at);
}

proof fn long_pieces_are_kept(list: Seq<Seq<char>>, at: int)
    requires
        0 <= at < list.len(),
        encode_utf8(list[at]).len() > 1,
    ensures
        kept_terms(list).contains(lowered(list[at])),
    decreases list.len(),
{
    let front = kept_terms(list.drop_last());
    if at < list.len() - 1 {
        long_pieces_are_kept(list.drop_last(), at);
        let i = choose|i: int| 0 <= i < front.len() && front[i] == lowered(list.drop_last()[at]);
        assert(kept_terms(list)[i] == lowered(list[at]));
    } else {
        assert(kept_terms(list)[front.len() as int] == lowered(list[at]));
    }
}

/// The arguments of a tool are the properties that its schema states; a schema without any states none.
pub proof fn arguments_are_the_stated_properties(schema: Seq<char>)
    ensures
        match json_pointer_keys(encode_utf8(schema), "/properties"@) {
            Some(names) => stated_arguments(schema) == names,
            None => stated_arguments(schema).len() == 0,
        },
{
}

/// Titles longer than a hundred and twenty-eight characters and descriptions longer than five hundred and
/// twelve are cut to that length.
pub proof fn long_texts_are_cut(hit: McpSearchHit, tool: McpToolSummary, score: u32)
    requires
        hit_of(hit, tool, score),
    ensures
        tool.title is Some && tool.title->0@.len() > 128 ==> hit.title->0@ == tool.title->0@.take(128),
        tool.description is Some && tool.description->0@.len() > 512 ==> hit.description->0@
            == tool.description->0@.take(512),
{
}

} // verus!
