//! Tools that the runtime answers itself: finding tools and asking the user.

use crate::pack_extensions::ToolSpec;
use crate::ranking::{first_items, insert_ranked, ranked, Ranked};
use crate::text::{
    clone_optional, clone_texts, contains, contains_text, list_contains, lowercase, lowered, parts_are_contained,
    same_text, trim, trimmed, views, word_list, words,
};
use crate::tools::{
    failed, first, forwarded, given, invalid, refuse_if, refuses, required_refusal, Refusal, TextArgument, ToolError,
};
use vstd::prelude::*;
use vstd::string::*;
use vstd::utf8::*;

verus! {

/// Most tools that a search for tools hands back.
pub const MAX_TOOL_RESULTS: usize = 50;

/// Most words of a query whose scores fit together.
pub const MAX_QUERY_WORDS: usize = (usize::MAX - 1_500) / 60;

/// A query as it is compared: without white space around it, with small letters.
pub open spec fn folded_query(query: Seq<char>) -> Seq<char> {
    lowered(trimmed(query))
}

/// Every term stands in the name or in the description.
pub open spec fn fits(name: Seq<char>, description: Seq<char>, terms: Seq<Seq<char>>) -> bool {
    forall|i: int|
        0 <= i < terms.len() ==> contains_text(name, #[trigger] terms[i]) || contains_text(description, terms[i])
}

/// How many terms stand in a text.
pub open spec fn count_in(text: Seq<char>, terms: Seq<Seq<char>>) -> nat
    decreases terms.len(),
{
    if terms.len() == 0 {
        0
    } else {
        count_in(text, terms.drop_last()) + if contains_text(text, terms.last()) {
            1nat
        } else {
            0nat
        }
    }
}

/// How well a tool fits a query.
pub open spec fn tool_score(
    name: Seq<char>,
    description: Seq<char>,
    query: Seq<char>,
    terms: Seq<Seq<char>>,
) -> int {
    (if name == query {
        1_000int
    } else {
        0int
    }) + (if contains_text(name, query) {
        500int
    } else {
        0int
    }) + count_in(name, terms) * 50 + count_in(description, terms) * 10
}

/// A tool that a search found.
#[derive(Debug)]
pub struct ToolHit {
    pub score: u64,
    pub name: String,
    pub description: String,
    pub effect_action: Option<String>,
    pub capability: Option<String>,
}

impl Ranked for ToolHit {
    open spec fn fit(&self) -> u64 {
        self.score
    }

    open spec fn group(&self) -> Seq<char> {
        Seq::empty()
    }

    open spec fn label(&self) -> Seq<char> {
        self.name@
    }

    fn score_value(&self) -> (score: u64) {
        self.score
    }

    fn group_text(&self) -> (text: &str) {
        let text = "";
        proof {
            reveal_strlit("");
            assert(text@ =~= Seq::<char>::empty());
        }
        text
    }

    fn label_text(&self) -> (text: &str) {
        self.name.as_str()
    }
}

/// What a search shows of a tool.
pub open spec fn tool_hit(spec: ToolSpec, query: Seq<char>, terms: Seq<Seq<char>>) -> ToolHit {
    ToolHit {
        score: tool_score(lowered(spec.name@), lowered(spec.description@), query, terms) as u64,
        name: spec.name,
        description: spec.description,
        effect_action: spec.effect_action,
        capability: spec.capability,
    }
}

/// The offered tools that fit a query, in the order of the registry.
pub open spec fn matching(
    specs: Seq<ToolSpec>,
    offered: Seq<Seq<char>>,
    query: Seq<char>,
    terms: Seq<Seq<char>>,
) -> Seq<
    ToolHit,
>
    decreases specs.len(),
{
    if specs.len() == 0 {
        Seq::empty()
    } else {
        let before = matching(specs.drop_last(), offered, query, terms);
        let spec = specs.last();
        if offered.contains(spec.name@) && fits(lowered(spec.name@), lowered(spec.description@), terms) {
            before.push(tool_hit(spec, query, terms))
        } else {
            before
        }
    }
}

/// How many tools a search hands back.
pub open spec fn tool_limit(max_results: Option<u64>) -> nat {
    match max_results {
        None => 10,
        Some(value) => if value == 0 {
            1
        } else if value > MAX_TOOL_RESULTS {
            MAX_TOOL_RESULTS as nat
        } else {
            value as nat
        },
    }
}

/// What a search for tools hands back.
#[derive(Debug)]
pub struct ToolSearch {
    pub query: String,
    pub tools: Vec<ToolHit>,
    pub truncated: bool,
}

fn fits_terms(name: &str, description: &str, terms: &Vec<String>) -> (yes: bool)
    ensures
        yes == fits(name@, description@, views(terms@)),
{
    let mut i: usize = 0;
    while i < terms.len()
        invariant
            i <= terms@.len(),
            forall|j: int|
                0 <= j < i ==> contains_text(name@, #[trigger] views(terms@)[j]) || contains_text(
                    description@,
                    views(terms@)[j],
                ),
        decreases terms@.len() - i,
    {
        proof {
            assert(views(terms@)[i as int] == terms@[i as int]@);
        }
        if !contains(name, terms[i].as_str()) && !contains(description, terms[i].as_str()) {
            return false;
        }
        i = i + 1;
    }
    true
}

fn count_terms(text: &str, terms: &Vec<String>) -> (count: u64)
    ensures
        count == count_in(text@, views(terms@)),
        count <= terms@.len(),
{
    let mut count: u64 = 0;
    let mut i: usize = 0;
    while i < terms.len()
        invariant
            i <= terms@.len(),
            count <= i,
            count == count_in(text@, views(terms@).take(i as int)),
        decreases terms@.len() - i,
    {
        proof {
            assert(views(terms@).take(i + 1).drop_last() =~= views(terms@).take(i as int));
            assert(views(terms@).take(i + 1).last() == terms@[i as int]@);
        }
        if contains(text, terms[i].as_str()) {
            count = count + 1;
        }
        i = i + 1;
    }
    proof {
        assert(views(terms@).take(i as int) =~= views(terms@));
    }
    count
}

fn score_tool(name: &str, description: &str, query: &str, terms: &Vec<String>) -> (score: u64)
    requires
        terms@.len() <= MAX_QUERY_WORDS,
    ensures
        score == tool_score(name@, description@, query@, views(terms@)),
{
    let exact: u64 = if same_text(name, query) {
        1_000
    } else {
        0
    };
    let contained: u64 = if contains(name, query) {
        500
    } else {
        0
    };
    let in_name: u64 = count_terms(name, terms);
    let in_description: u64 = count_terms(description, terms);
    exact + contained + in_name * 50 + in_description * 10
}

/// The tools that fit a query, among those that the model was offered: every word of the query has to
/// stand in the name or in the description of a tool.
pub fn search_tools(
    specs: &Vec<ToolSpec>,
    offered: &Vec<String>,
    query: &str,
    max_results: Option<u64>,
) -> (found: ToolSearch)
    requires
        word_list(folded_query(query@)).len() <= MAX_QUERY_WORDS,
    ensures
        found.query@ == folded_query(query@),
        ({
            let hits = ranked(
                matching(specs@, views(offered@), folded_query(query@), word_list(folded_query(query@))),
                false,
            );
            &&& found.tools@ == first_items(hits, tool_limit(max_results))
            &&& found.truncated == (hits.len() > tool_limit(max_results))
        }),
{
    let bare = trim(query);
    let folded = lowercase(bare.as_str());
    let terms = words(folded.as_str());
    proof {
        assert(views(terms@).len() == terms@.len());
    }
    let mut tools: Vec<ToolHit> = Vec::new();
    let mut i: usize = 0;
    while i < specs.len()
        invariant
            i <= specs@.len(),
            terms@.len() <= MAX_QUERY_WORDS,
            folded@ == folded_query(query@),
            views(terms@) == word_list(folded@),
            tools@ == ranked(matching(specs@.take(i as int), views(offered@), folded@, views(terms@)), false),
        decreases specs@.len() - i,
    {
        let spec = &specs[i];
        let ghost before = matching(specs@.take(i as int), views(offered@), folded@, views(terms@));
        proof {
            assert(specs@.take(i + 1).drop_last() =~= specs@.take(i as int));
            assert(specs@.take(i + 1).last() == *spec);
        }
        if list_contains(offered, spec.name.as_str()) {
            let name = lowercase(spec.name.as_str());
            let description = lowercase(spec.description.as_str());
            if fits_terms(name.as_str(), description.as_str(), &terms) {
                let score: u64 = score_tool(name.as_str(), description.as_str(), folded.as_str(), &terms);
                let hit = ToolHit {
                    score,
                    name: spec.name.clone(),
                    description: spec.description.clone(),
                    effect_action: clone_optional(&spec.effect_action),
                    capability: clone_optional(&spec.capability),
                };
                proof {
                    assert(hit == tool_hit(*spec, folded@, views(terms@)));
                    assert(before.push(hit).drop_last() =~= before);
                }
                insert_ranked(&mut tools, hit, false);
            }
        }
        i = i + 1;
    }
    proof {
        assert(specs@.take(i as int) =~= specs@);
    }
    let limit: usize = match max_results {
        None => 10,
        Some(value) => if value == 0 {
            1
        } else if value > MAX_TOOL_RESULTS as u64 {
            MAX_TOOL_RESULTS
        } else {
            value as usize
        },
    };
    let truncated = tools.len() > limit;
    let ghost whole = tools@;
    if truncated {
        tools.truncate(limit);
    }
    proof {
        assert(tools@ =~= first_items(whole, limit as nat));
    }
    ToolSearch { query: folded, tools, truncated }
}

/// A search for tools finds none that the model was not offered.
pub proof fn only_offered_tools_are_found(
    specs: Seq<ToolSpec>,
    offered: Seq<Seq<char>>,
    query: Seq<char>,
    terms: Seq<Seq<char>>,
    position: int,
)
    requires
        0 <= position < matching(specs, offered, query, terms).len(),
    ensures
        offered.contains(matching(specs, offered, query, terms)[position].name@),
    decreases specs.len(),
{
    let before = matching(specs.drop_last(), offered, query, terms);
    if position < before.len() {
        only_offered_tools_are_found(specs.drop_last(), offered, query, terms, position);
    }
}

/// A question for the user.
#[derive(Debug)]
pub struct UserPromptRequest {
    pub question: String,
    pub choices: Vec<String>,
    pub allow_free_form: bool,
}

/// The choices that were given.
pub open spec fn given_choices(choices: Result<Option<Vec<String>>, ToolError>) -> Seq<String> {
    match choices {
        Ok(Some(list)) => list@,
        _ => Seq::empty(),
    }
}

/// Whether any answer is taken.
pub open spec fn free_form(allowed: Result<Option<bool>, ToolError>) -> bool {
    match allowed {
        Ok(Some(flag)) => flag,
        _ => true,
    }
}

/// Why a question is refused, if so.
pub open spec fn question_refusal(
    tool: Seq<char>,
    choices: Result<Option<Vec<String>>, ToolError>,
    allowed: Result<Option<bool>, ToolError>,
    question: TextArgument,
) -> Option<Refusal> {
    first(
        forwarded(choices),
        first(
            forwarded(allowed),
            first(
                refuse_if(
                    given_choices(choices).len() == 0 && !free_form(allowed),
                    Refusal::Invalid(tool, "user.ask requires choices when free-form answers are disabled"@),
                ),
                required_refusal(question),
            ),
        ),
    )
}

/// The question that a call asks the user.
pub fn ask_user(
    tool: &str,
    choices: &Result<Option<Vec<String>>, ToolError>,
    allow_free_form: &Result<Option<bool>, ToolError>,
    question: &TextArgument,
) -> (result: Result<UserPromptRequest, ToolError>)
    ensures
        match question_refusal(tool@, *choices, *allow_free_form, *question) {
            Some(refusal) => refuses(result, refusal),
            None => result matches Ok(request) && {
                &&& given(*question) == Some(request.question)
                &&& request.choices@ == given_choices(*choices)
                &&& request.allow_free_form == free_form(*allow_free_form)
            },
        },
{
    let listed: Vec<String> = match choices {
        Err(error) => {
            return Err(error.clone());
        },
        Ok(Some(list)) => clone_texts(list),
        Ok(None) => Vec::new(),
    };
    let allowed = match allow_free_form {
        Err(error) => {
            return Err(error.clone());
        },
        Ok(Some(flag)) => *flag,
        Ok(None) => true,
    };
    if listed.len() == 0 && !allowed {
        return invalid(tool, "user.ask requires choices when free-form answers are disabled");
    }
    let question = question.required()?;
    Ok(UserPromptRequest { question, choices: listed, allow_free_form: allowed })
}

/// Most bytes of an answer.
pub const MAX_ANSWER_BYTES: usize = 0x1_0000;

/// An answer keeps to the question.
pub open spec fn acceptable(
    request: UserPromptRequest,
    answer: Seq<char>,
    selected: Option<usize>,
) -> bool {
    &&& answer.len() > 0
    &&& encode_utf8(answer).len() <= MAX_ANSWER_BYTES
    &&& selected matches Some(index) ==> index < request.choices@.len() && request.choices@[index as int]@ == answer
    &&& !request.allow_free_form ==> views(request.choices@).contains(answer)
}

/// Accepts the answer of a user: not empty, not too long, the selected choice where one was selected,
/// and one of the choices where no other answer is taken.
pub fn accept_answer(
    request: &UserPromptRequest,
    answer: &str,
    selected: Option<usize>,
) -> (result: Result<(), ToolError>)
    ensures
        if acceptable(*request, answer@, selected) {
            result is Ok
        } else {
            refuses(result, Refusal::Failed("interactive prompt returned an invalid or out-of-contract answer"@))
        },
{
    let mismatch = match selected {
        Some(index) => index >= request.choices.len() || !same_text(request.choices[index].as_str(), answer),
        None => false,
    };
    if answer.is_empty() || answer.as_bytes().len() > MAX_ANSWER_BYTES || mismatch || (!request.allow_free_form
        && !list_contains(&request.choices, answer)) {
        return failed("interactive prompt returned an invalid or out-of-contract answer");
    }
    Ok(())
}

/// Where no free answer is taken, every accepted answer is one of the choices.
pub proof fn closed_questions_get_a_choice(request: UserPromptRequest, answer: Seq<char>, selected: Option<usize>)
    requires
        acceptable(request, answer, selected),
        !request.allow_free_form || selected is Some,
    ensures
        views(request.choices@).contains(answer),
{
    if let Some(index) = selected {
        assert(views(request.choices@)[index as int] == answer);
    }
}

/// Whether the result of a call wakes the scheduler of child agents: an accepted delegation does.
pub fn wakes_scheduler(tool: &str, exit_code: i32) -> (wakes: bool)
    ensures
        wakes == (tool@ == "agent.delegate"@ && exit_code == 0),
{
    same_text(tool, "agent.delegate") && exit_code == 0
}

/// A tool is found where it is offered and every word of the query stands in its name or its
/// description; it is shown with its own name, description, action and capability.
pub proof fn offered_tools_that_fit_are_found(
    specs: Seq<ToolSpec>,
    spec: ToolSpec,
    offered: Seq<Seq<char>>,
    query: Seq<char>,
    terms: Seq<Seq<char>>,
)
    ensures
        ({
            let before = matching(specs, offered, query, terms);
            let after = matching(specs.push(spec), offered, query, terms);
            let found = offered.contains(spec.name@) && forall|i: int|
                0 <= i < terms.len() ==> contains_text(lowered(spec.name@), #[trigger] terms[i]) || contains_text(
                    lowered(spec.description@),
                    terms[i],
                );
            &&& !found ==> after == before
            &&& found ==> after.len() == before.len() + 1 && after.drop_last() == before && after.last().name
                == spec.name && after.last().description == spec.description && after.last().effect_action
                == spec.effect_action && after.last().capability == spec.capability
            &&& matching(Seq::empty(), offered, query, terms).len() == 0
        }),
{
    assert(specs.push(spec).drop_last() == specs);
    let before = matching(specs, offered, query, terms);
    assert(before.push(tool_hit(spec, query, terms)).drop_last() == before);
}

/// Words are counted one by one: over two lists of words one after the other the counts add up, and a
/// word counts exactly where the text contains it.
pub proof fn word_counts_add_up(text: Seq<char>, first: Seq<Seq<char>>, second: Seq<Seq<char>>, term: Seq<char>)
    ensures
        count_in(text, first + second) == count_in(text, first) + count_in(text, second),
        count_in(text, seq![term]) == if contains_text(text, term) {
            1nat
        } else {
            0nat
        },
    decreases second.len(),
{
    assert(seq![term].drop_last() == Seq::<Seq<char>>::empty());
    assert(count_in(text, Seq::<Seq<char>>::empty()) == 0);
    if second.len() == 0 {
        assert(first + second == first);
    } else {
        word_counts_add_up(text, first, second.drop_last(), term);
        assert((first + second).drop_last() == first + second.drop_last());
    }
}

/// A tool called exactly what was asked for outranks one whose name only holds it by a thousand, which
/// outranks one whose name does not by five hundred; a further word in the name is worth fifty more and
/// one in the description ten.
pub proof fn exact_names_outrank_the_rest(
    name: Seq<char>,
    description: Seq<char>,
    query: Seq<char>,
    terms: Seq<Seq<char>>,
    term: Seq<char>,
)
    ensures
        tool_score(query, description, query, terms) == 1_500 + count_in(query, terms) * 50 + count_in(
            description,
            terms,
        ) * 10,
        name != query && contains_text(name, query) ==> tool_score(name, description, query, terms) == 500 + count_in(
            name,
            terms,
        ) * 50 + count_in(description, terms) * 10,
        !contains_text(name, query) ==> tool_score(name, description, query, terms) == count_in(name, terms) * 50
            + count_in(description, terms) * 10,
        tool_score(name, description, query, terms.push(term)) == tool_score(name, description, query, terms) + (
        if contains_text(name, term) {
            50int
        } else {
            0int
        }) + (if contains_text(description, term) {
            10int
        } else {
            0int
        }),
{
    let empty = Seq::<char>::empty();
    parts_are_contained(empty, query, empty);
    assert(empty + query + empty == query);
    word_counts_add_up(name, terms, seq![term], term);
    word_counts_add_up(description, terms, seq![term], term);
    assert(terms + seq![term] == terms.push(term));
    if name == query {
        assert(contains_text(name, query));
    }
}

/// Ten tools are shown unless another number between one and fifty is asked for.
pub proof fn tool_results_are_limited(asked: u64)
    ensures
        tool_limit(None) == 10,
        1 <= asked <= 50 ==> tool_limit(Some(asked)) == asked,
        1 <= tool_limit(Some(asked)) <= 50,
{
}

/// A question may be asked exactly where its text is given and an answer is possible: one of the choices
/// or a free one.
pub proof fn answerable_questions_are_asked(
    tool: Seq<char>,
    choices: Result<Option<Vec<String>>, ToolError>,
    allowed: Result<Option<bool>, ToolError>,
    question: TextArgument,
)
    ensures
        question_refusal(tool, choices, allowed, question) is None <==> {
            &&& choices is Ok && allowed is Ok
            &&& question is Present
            &&& (choices->Ok_0 is Some && choices->Ok_0->0@.len() > 0) || allowed->Ok_0 != Some(false)
        },
        choices matches Ok(Some(list)) ==> given_choices(choices) == list@,
        choices matches Ok(None) ==> given_choices(choices).len() == 0,
        allowed matches Ok(Some(flag)) ==> free_form(allowed) == flag,
        allowed matches Ok(None) ==> free_form(allowed),
{
}

/// An answer that was chosen is accepted where it is that choice, and a free one where free answers are
/// allowed; no answer is empty or larger than sixty-four kibibytes.
pub proof fn contracted_answers_are_accepted(request: UserPromptRequest, answer: Seq<char>, selected: Option<usize>)
    ensures
        acceptable(request, answer, selected) ==> answer.len() > 0 && encode_utf8(answer).len() <= 65_536,
        answer.len() > 0 && encode_utf8(answer).len() <= 65_536 && request.allow_free_form && selected is None
            ==> acceptable(request, answer, selected),
        answer.len() > 0 && encode_utf8(answer).len() <= 65_536 && selected is Some && selected->0
            < request.choices@.len() && request.choices@[selected->0 as int]@ == answer ==> acceptable(
            request,
            answer,
            selected,
        ),
        selected is Some && selected->0 >= request.choices@.len() ==> !acceptable(request, answer, selected),
{
    if selected is Some && selected->0 < request.choices@.len() && request.choices@[selected->0 as int]@ == answer {
        assert(views(request.choices@)[selected->0 as int] == answer);
    }
}

/// A query is looked for without the blanks around it and in small letters: every character stands for
/// itself, or for its small letter where it is a capital one.
pub proof fn queries_are_folded(query: Seq<char>, at: int)
    requires
        0 <= at < trimmed(query).len(),
    ensures
        folded_query(query).len() == trimmed(query).len(),
        !('A' <= folded_query(query)[at] && folded_query(query)[at] <= 'Z'),
        !('A' <= trimmed(query)[at] && trimmed(query)[at] <= 'Z') ==> folded_query(query)[at] == trimmed(query)[at],
        'A' <= trimmed(query)[at] && trimmed(query)[at] <= 'Z' ==> folded_query(query)[at] as u32 == trimmed(
            query,
        )[at] as u32 + 32,
{
}

} // verus!
