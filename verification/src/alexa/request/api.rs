//! How the skill answers: the canned answers, the shopping list, the puns, and the
//! decision of what to say for each kind of request.
use vstd::prelude::*;
use vstd::string::*;
use crate::alexa::request::presets::{
    deserved_response, deserved_responses, trocadilho, trocadilhos, DESERVED_RESPONSES_LEN,
    TROCADILHOS_LEN,
};
use crate::alexa::request::{parse_request_type, AlexaApiRequest, RequestType};
use crate::alexa::request::intent::IntentRequest;
use crate::alexa::json::{get, get_index, json_get, json_index, json_parse, parse_json, parsed_view, Json};
use crate::alexa::response::{
    api_version, default_response, ssml_speech, text_speech, AlexaResponse, ApiResponse,
    ApiResponseModel, ResponseModel,
};
use crate::alexa::text::{
    join, join_with, lowercase, occurs_at, opt_view, replace, replace_all, str_eq, string_views,
    to_lowercase,
};

verus! {

broadcast use vstd::string::group_string_axioms;

// ---------------------------------------------------------------------------
// Canned answers
// ---------------------------------------------------------------------------

/// Whether `regex::Regex::new` accepts `pattern`.
pub uninterp spec fn regex_compiles(pattern: Seq<char>) -> bool;

/// What `regex::Regex::is_match` answers, for the regex compiled from `pattern`,
/// on `haystack`: whether the regex matches somewhere in it.
pub uninterp spec fn regex_is_match(pattern: Seq<char>, haystack: Seq<char>) -> bool;

/// Calls `regex::Regex::new(pattern)` and, when that succeeds, `Regex::is_match` on
/// `haystack`. The contract claims that the result is `None` exactly when the
/// pattern does not compile, and otherwise holds what `is_match` answered; both are
/// functions of the arguments alone. The regex syntax and the matching semantics are
/// left unsaid.
#[verifier::external_body]
fn regex_search(pattern: &str, haystack: &str) -> (r: Option<bool>)
    ensures
        r is Some <==> regex_compiles(pattern@),
        r matches Some(b) ==> b == regex_is_match(pattern@, haystack@),
{
    match regex::Regex::new(pattern) {
        Ok(re) => Some(re.is_match(haystack)),
        Err(_) => None,
    }
}

/// The position of the first `true` in `bs` at or after `k`.
pub open spec fn first_true_from(bs: Seq<bool>, k: int) -> Option<int>
    decreases bs.len() - k,
{
    if k < 0 || k >= bs.len() {
        None
    } else if bs[k] {
        Some(k)
    } else {
        first_true_from(bs, k + 1)
    }
}

/// The position of the first `true` in `bs`.
pub open spec fn first_true(bs: Seq<bool>) -> Option<int> {
    first_true_from(bs, 0)
}

/// Whether the canned answer at position `i` applies to `input`: its pattern
/// compiles and matches somewhere in `input`.
pub open spec fn preset_applies(i: int, input: Seq<char>) -> bool {
    regex_compiles(deserved_responses()[i].0) && regex_is_match(deserved_responses()[i].0, input)
}

/// For each canned answer, in order, whether it applies to `input`.
pub open spec fn preset_hits(input: Seq<char>) -> Seq<bool> {
    Seq::new(deserved_responses().len(), |i: int| preset_applies(i, input))
}

/// The canned answer given for the hits `hits`: the answer of the first one that
/// applies.
pub open spec fn answer_for_hits(hits: Seq<bool>) -> Option<Seq<char>> {
    match first_true(hits) {
        Some(i) => Some(deserved_responses()[i].1),
        None => None,
    }
}

/// The canned answer for `input`, if any pattern applies.
pub open spec fn preset_answer(input: Seq<char>) -> Option<Seq<char>> {
    answer_for_hits(preset_hits(input))
}

/// Picks the canned answer of the first entry whose pattern applied, given, for each
/// entry in order, whether it applied.
pub fn preset_from_hits(hits: &Vec<bool>) -> (r: Option<String>)
    requires
        hits@.len() == DESERVED_RESPONSES_LEN,
    ensures
        opt_view(r) == answer_for_hits(hits@),
{
    let mut i: usize = 0;
    while i < DESERVED_RESPONSES_LEN
        invariant
            hits@.len() == DESERVED_RESPONSES_LEN,
            i <= DESERVED_RESPONSES_LEN,
            first_true(hits@) == first_true_from(hits@, i as int),
        decreases DESERVED_RESPONSES_LEN - i,
    {
        if hits[i] {
            let (_, text) = deserved_response(i);
            return Some(String::from_str(text));
        }
        i = i + 1;
    }
    None
}

/// The canned answer for a question, if the question matches one of the patterns.
pub fn has_preset_response(input: &str) -> (r: Option<String>)
    ensures
        opt_view(r) == preset_answer(input@),
{
    let mut hits: Vec<bool> = Vec::new();
    let mut i: usize = 0;
    while i < DESERVED_RESPONSES_LEN
        invariant
            i <= DESERVED_RESPONSES_LEN,
            hits@.len() == i,
            forall|j: int| 0 <= j < i ==> hits@[j] == preset_applies(j, input@),
        decreases DESERVED_RESPONSES_LEN - i,
    {
        let (pattern, _) = deserved_response(i);
        let hit = match regex_search(pattern, input) {
            Some(b) => b,
            None => false,
        };
        hits.push(hit);
        i = i + 1;
    }
    assert(hits@ =~= preset_hits(input@));
    preset_from_hits(&hits)
}

// ---------------------------------------------------------------------------
// Questions sent to the completion service
// ---------------------------------------------------------------------------

/// The instruction appended to a question, chosen by the lowercased locale.
pub open spec fn locale_hint(lowered_locale: Seq<char>) -> Seq<char> {
    if lowered_locale == "pt-br"@ {
        "(responda em português)"@
    } else if lowered_locale == "en-us"@ {
        "(answer in english)"@
    } else {
        "(answer in the original language)"@
    }
}

/// The question followed by a space and the instruction for the lowercased locale.
pub open spec fn full_query(input: Seq<char>, lowered_locale: Seq<char>) -> Seq<char> {
    input + " "@ + locale_hint(lowered_locale)
}

/// The question followed by a space and the instruction for an already lowercased
/// locale.
pub fn query_with_hint(input: &str, lowered_locale: &str) -> (r: String)
    ensures
        r@ == full_query(input@, lowered_locale@),
{
    let hint = if str_eq(lowered_locale, "pt-br") {
        "(responda em português)"
    } else if str_eq(lowered_locale, "en-us") {
        "(answer in english)"
    } else {
        "(answer in the original language)"
    };
    let mut r = String::from_str(input);
    r.append(" ");
    r.append(hint);
    r
}

/// The question as sent to the completion service: the question, a space, and an
/// instruction on the language of the answer, chosen by the locale in any case.
pub fn get_full_query(input: &str, locale: &str) -> (r: String)
    ensures
        r@ == full_query(input@, lowercase(locale@)),
{
    let lowered = to_lowercase(locale);
    query_with_hint(input, lowered.as_str())
}

/// The text of a completion as the skill says it: the escaped quotes (a backslash
/// and a double quote) become single quotes, and each escaped newline (a backslash
/// and `n`) becomes a newline.
pub open spec fn spoken_completion(raw: Seq<char>) -> Seq<char> {
    replace_all(replace_all(raw, "\\\""@, "'"@), "\\n"@, "\n"@)
}

/// The text of a completion as the skill says it, from the written-out content
/// field of the service's reply.
pub fn completion_text(raw: &str) -> (r: String)
    ensures
        r@ == spoken_completion(raw@),
{
    let unquoted = replace(raw, "\\\"", "'");
    replace(unquoted.as_str(), "\\n", "\n")
}

// ---------------------------------------------------------------------------
// The shopping list
// ---------------------------------------------------------------------------

/// For each item, whether it equals `key` once lowercased.
pub open spec fn match_flags(items: Seq<Seq<char>>, key: Seq<char>) -> Seq<bool> {
    Seq::new(items.len(), |j: int| lowercase(items[j]) == key)
}

/// The shopping list: the items in the order they were added.
pub struct ShoppingList {
    items: Vec<String>,
}

impl View for ShoppingList {
    type V = Seq<Seq<char>>;

    closed spec fn view(&self) -> Seq<Seq<char>> {
        string_views(self.items@)
    }
}

/// How the shopping list is read out.
pub open spec fn list_text(items: Seq<Seq<char>>) -> Seq<char> {
    if items.len() == 0 {
        "Sua lista de compras está vazia."@
    } else {
        "Sua lista de compras é: "@ + join_with(items, ","@)
    }
}

impl ShoppingList {
    /// An empty list.
    pub fn new() -> (r: Self)
        ensures
            r@ == Seq::<Seq<char>>::empty(),
    {
        let r = ShoppingList { items: Vec::new() };
        assert(r@ =~= Seq::<Seq<char>>::empty());
        r
    }

    /// The number of items.
    pub fn len(&self) -> (r: usize)
        ensures
            r == self@.len(),
    {
        self.items.len()
    }

    /// Adds `item` at the end.
    pub fn add(&mut self, item: String)
        ensures
            final(self)@ == old(self)@.push(item@),
    {
        self.items.push(item);
        assert(string_views(self.items@) =~= string_views(old(self).items@).push(item@));
    }

    /// Removes every item.
    pub fn clear(&mut self)
        ensures
            final(self)@ == Seq::<Seq<char>>::empty(),
    {
        self.items.clear();
        assert(string_views(self.items@) =~= Seq::<Seq<char>>::empty());
    }

    /// Removes the first item whose flag is set; says whether one was removed.
    pub fn remove_first_flagged(&mut self, flags: &Vec<bool>) -> (found: bool)
        requires
            flags@.len() == old(self)@.len(),
        ensures
            match first_true(flags@) {
                Some(i) => found && final(self)@ == old(self)@.remove(i),
                None => !found && final(self)@ == old(self)@,
            },
    {
        let n = flags.len();
        let mut i: usize = 0;
        while i < n
            invariant
                n == flags@.len(),
                n == self.items@.len(),
                self.items@ == old(self).items@,
                i <= n,
                first_true(flags@) == first_true_from(flags@, i as int),
            decreases n - i,
        {
            if flags[i] {
                let ghost before = self.items@;
                self.items.remove(i);
                assert(string_views(self.items@) =~= string_views(before).remove(i as int));
                return true;
            }
            i = i + 1;
        }
        false
    }

    /// Removes the first item equal to `name` once both are lowercased; says whether
    /// one was removed.
    pub fn remove_matching(&mut self, name: &str) -> (found: bool)
        ensures
            match first_true(match_flags(old(self)@, lowercase(name@))) {
                Some(i) => found && final(self)@ == old(self)@.remove(i),
                None => !found && final(self)@ == old(self)@,
            },
            found ==> exists|i: int|
                0 <= i < old(self)@.len() && lowercase(old(self)@[i]) == lowercase(name@) && (
                forall|j: int| 0 <= j < i ==> lowercase(old(self)@[j]) != lowercase(name@))
                    && final(self)@ == old(self)@.remove(i),
            !found ==> final(self)@ == old(self)@ && forall|j: int|
                0 <= j < old(self)@.len() ==> lowercase(old(self)@[j]) != lowercase(name@),
    {
        proof {
            lemma_removal_by_name(self@, name@);
        }
        let key = to_lowercase(name);
        let n = self.items.len();
        let mut flags: Vec<bool> = Vec::new();
        let mut i: usize = 0;
        while i < n
            invariant
                n == self.items@.len(),
                key@ == lowercase(name@),
                i <= n,
                flags@.len() == i,
                forall|j: int| 0 <= j < i ==> flags@[j] == (lowercase(self@[j]) == key@),
            decreases n - i,
        {
            let lowered = to_lowercase(self.items[i].as_str());
            assert(self@[i as int] == self.items@[i as int]@);
            flags.push(str_eq(lowered.as_str(), key.as_str()));
            i = i + 1;
        }
        assert(flags@ =~= match_flags(self@, key@));
        self.remove_first_flagged(&flags)
    }

    /// How the list is read out: a message for the empty list, else the items
    /// separated by commas.
    pub fn describe(&self) -> (r: String)
        ensures
            r@ == list_text(self@),
    {
        if self.items.len() == 0 {
            String::from_str("Sua lista de compras está vazia.")
        } else {
            let mut r = String::from_str("Sua lista de compras é: ");
            let joined = join(&self.items, ",");
            r.append(joined.as_str());
            r
        }
    }
}

// ---------------------------------------------------------------------------
// Puns
// ---------------------------------------------------------------------------

/// Calls `rand::random::<u16>()`, which draws from the thread-local generator.
/// Nothing is claimed of the value. The call panics only when the operating system
/// cannot seed the generator.
#[verifier::external_body]
fn random_u16() -> u16 {
    rand::random::<u16>()
}

/// What the skill says when it tells the pun chosen by `roll`.
pub open spec fn pun_message(roll: u16) -> Seq<char> {
    "Aqui vai um trocadilho: "@ + trocadilhos()[roll as int % TROCADILHOS_LEN as int]
        + "\n\nSe você gostou, deixa o seu like e se inscreva no anau... eita, canal!"@
}

/// What the skill says when it tells the pun chosen by `roll`.
pub fn pun_text(roll: u16) -> (r: String)
    ensures
        r@ == pun_message(roll),
{
    let i = (roll as usize) % TROCADILHOS_LEN;
    let mut r = String::from_str("Aqui vai um trocadilho: ");
    r.append(trocadilho(i));
    r.append("\n\nSe você gostou, deixa o seu like e se inscreva no anau... eita, canal!");
    r
}


// ---------------------------------------------------------------------------
// Answering requests
// ---------------------------------------------------------------------------

/// The abstract content of a [`RequestStep`].
pub enum StepModel {
    Respond(ApiResponseModel),
    AskCompletion(Seq<char>),
}

/// What the skill does next with a request: answer it, or first ask the completion
/// service the given question and then answer with [`finish_completion`].
pub enum RequestStep {
    Respond(ApiResponse),
    AskCompletion(String),
}

impl View for RequestStep {
    type V = StepModel;

    open spec fn view(&self) -> StepModel {
        match self {
            RequestStep::Respond(r) => StepModel::Respond(r@),
            RequestStep::AskCompletion(q) => StepModel::AskCompletion(q@),
        }
    }
}

/// Answering with the response body `m`.
pub open spec fn respond(m: ResponseModel) -> StepModel {
    StepModel::Respond(ApiResponseModel { version: api_version(), response: m })
}

/// The default response body saying `text` as plain text, ending the session or not.
pub open spec fn text_response(text: Seq<char>, end: bool) -> ResponseModel {
    ResponseModel { speech: text_speech(text), end_session: end, ..default_response() }
}

/// The default response body saying `ssml` as SSML, ending the session or not.
pub open spec fn ssml_response(ssml: Seq<char>, end: bool) -> ResponseModel {
    ResponseModel { speech: ssml_speech(ssml), end_session: end, ..default_response() }
}

fn reply(r: AlexaResponse) -> (s: RequestStep)
    ensures
        s@ == respond(r@),
{
    RequestStep::Respond(ApiResponse::default().with_response(r))
}

/// The greeting when the skill is opened.
pub open spec fn launch_response() -> ResponseModel {
    ResponseModel {
        speech: ssml_speech("Bem vindo ao busco resposta chega hoje frete grátis enterprises.\n\tEu queria ser inteligente assim como você.\n\tO que posso te oferecer-te a ti hoje"@),
        reprompt: Some(ssml_speech("Para perguntar, diga: 'quero saber' e em seguida a sua pergunta enquanto dúvida a nível de questão."@)),
        end_session: false,
        session_attributes: None,
    }
}

/// Greets the user who opened the skill and tells how to ask a question.
pub fn handle_launch_request(_request: &AlexaApiRequest) -> (r: ApiResponse)
    ensures
        r@ == (ApiResponseModel { version: api_version(), response: launch_response() }),
{
    let ssml = "Bem vindo ao busco resposta chega hoje frete grátis enterprises.\n\tEu queria ser inteligente assim como você.\n\tO que posso te oferecer-te a ti hoje";
    let response = AlexaResponse::new_with_ssml(ssml)
        .with_reprompt_ssml("Para perguntar, diga: 'quero saber' e em seguida a sua pergunta enquanto dúvida a nível de questão.")
        .should_end_session(false);
    ApiResponse::default().with_response(response)
}

/// The user's question in an intent that asks for a completion.
pub open spec fn ai_question(intent: IntentRequest) -> Seq<char> {
    intent.spec_slot("user_query"@)->Some_0.spec_value()->Some_0@
}

/// What the skill does with a question: give the canned answer for the lowercased
/// question if there is one, else ask the completion service.
pub open spec fn ai_step(intent: IntentRequest) -> StepModel {
    let q = ai_question(intent);
    match preset_answer(lowercase(q)) {
        Some(a) => respond(text_response(a, false)),
        None => StepModel::AskCompletion(full_query(q, lowercase(intent.locale@))),
    }
}

/// Whether the intent carries a question (a `user_query` slot with a value).
pub open spec fn has_question(intent: IntentRequest) -> bool {
    intent.spec_slot("user_query"@) matches Some(c) && c.spec_value() is Some
}

fn hangle_get_ai_completion(intent: &IntentRequest) -> (r: RequestStep)
    requires
        has_question(*intent),
    ensures
        r@ == ai_step(*intent),
{
    let a = intent.get_slot("user_query").unwrap();
    let user_query = a.value().unwrap();
    let lower = to_lowercase(user_query.as_str());
    match has_preset_response(lower.as_str()) {
        Some(r) => reply(AlexaResponse::default().with_text(r.as_str()).should_end_session(false)),
        None => RequestStep::AskCompletion(get_full_query(user_query.as_str(), intent.locale.as_str())),
    }
}

/// The reprompt after an item was asked to be added.
pub open spec fn add_reprompt() -> Seq<char> {
    "que mais precisas oh amigo?"@
}

/// Adding the item of the `nova_compra` slot to the list.
pub open spec fn add_outcome(intent: IntentRequest, items: Seq<Seq<char>>) -> (StepModel, Seq<Seq<char>>) {
    match intent.spec_slot("nova_compra"@) {
        Some(c) => {
            let item = c.spec_value()->Some_0@;
            (
                respond(ResponseModel {
                    speech: text_speech("Item "@ + item + " adicionado a sua lista com sucesso."@),
                    reprompt: Some(text_speech(add_reprompt())),
                    ..default_response()
                }),
                items.push(item),
            )
        },
        None => (
            respond(ResponseModel {
                speech: text_speech("Quer adicionar o que na lista de compras, vacilão?"@),
                reprompt: Some(text_speech(add_reprompt())),
                ..default_response()
            }),
            items,
        ),
    }
}

/// Whether a slot named `key`, when present, has a value.
pub open spec fn slot_has_value_if_present(intent: IntentRequest, key: Seq<char>) -> bool {
    intent.spec_slot(key) matches Some(c) ==> c.spec_value() is Some
}

fn add_item(list: &mut ShoppingList, intent: &IntentRequest) -> (r: RequestStep)
    requires
        slot_has_value_if_present(*intent, "nova_compra"@),
    ensures
        (r@, final(list)@) == add_outcome(*intent, old(list)@),
{
    let s = match intent.get_slot("nova_compra") {
        Some(c) => {
            let item = c.value().unwrap();
            let mut msg = String::from_str("Item ");
            msg.append(item.as_str());
            msg.append(" adicionado a sua lista com sucesso.");
            list.add(item);
            msg
        },
        None => String::from_str("Quer adicionar o que na lista de compras, vacilão?"),
    };
    reply(AlexaResponse::default().with_text(s.as_str()).with_reprompt_text("que mais precisas oh amigo?"))
}

/// Emptying the list, or removing the item of the `item_compra` slot from it.
pub open spec fn clear_outcome(intent: IntentRequest, items: Seq<Seq<char>>) -> (StepModel, Seq<Seq<char>>) {
    match intent.spec_slot("item_compra"@) {
        None => (respond(text_response("Lista de compras zerada!"@, false)), Seq::empty()),
        Some(c) => {
            let s = c.spec_value()->Some_0@;
            match first_true(match_flags(items, lowercase(s))) {
                Some(i) => (
                    respond(text_response("Item "@ + s + " removido da lista com sucesso chega hoje!"@, false)),
                    items.remove(i),
                ),
                None => (
                    respond(text_response("Item "@ + s + " não encontrado na lista de compras."@, false)),
                    items,
                ),
            }
        },
    }
}

fn clear_items(list: &mut ShoppingList, intent: &IntentRequest) -> (r: RequestStep)
    requires
        slot_has_value_if_present(*intent, "item_compra"@),
    ensures
        (r@, final(list)@) == clear_outcome(*intent, old(list)@),
{
    match intent.get_slot("item_compra") {
        None => {
            list.clear();
            reply(AlexaResponse::default().with_text("Lista de compras zerada!"))
        },
        Some(c) => {
            let s = c.value().unwrap();
            let mut text = String::from_str("Item ");
            text.append(s.as_str());
            if list.remove_matching(s.as_str()) {
                text.append(" removido da lista com sucesso chega hoje!");
            } else {
                text.append(" não encontrado na lista de compras.");
            }
            reply(AlexaResponse::default().with_text(text.as_str()))
        },
    }
}

/// What the skill says when asked to stop.
pub open spec fn stop_text() -> Seq<char> {
    "Obrigado por utilizar os serviços da busco chega hoje facilities enterprises frete grátis 12 vezes sem juros no cartão, aceita cheque, parcela no pix, 19 e 90 o quilo, leve 3 pague 4."@
}

/// What the skill says for an intent it does not know.
pub open spec fn unknown_intent_text() -> Seq<char> {
    "Pede o que você quer direito, cabeção."@
}

/// What the skill says for the `UserIsChapado` intent.
pub open spec fn chapado_response() -> ResponseModel {
    ResponseModel {
        speech: ssml_speech("<amazon:emotion name='excited' intensity='high'>Aí entende rápido, hein!!!</amazon:emotion>"@),
        reprompt: Some(text_speech("você ainda quer alguma coisa?"@)),
        ..default_response()
    }
}

/// What the skill does for an intent, given the shopping list before it and the
/// number drawn for a pun; the second component is the list after it.
pub open spec fn intent_outcome(intent: IntentRequest, items: Seq<Seq<char>>, roll: u16) -> (StepModel, Seq<Seq<char>>) {
    let name = intent.intent.name@;
    if name == "GetAICompletion"@ {
        (ai_step(intent), items)
    } else if name == "AMAZON.StopIntent"@ {
        (respond(text_response(stop_text(), true)), items)
    } else if name == "GetListaCompras"@ {
        (respond(text_response(list_text(items), false)), items)
    } else if name == "AddListaCompras"@ {
        add_outcome(intent, items)
    } else if name == "LimparListaCompras"@ {
        clear_outcome(intent, items)
    } else if name == "TrocadilhoIntent"@ {
        (respond(text_response(pun_message(roll), false)), items)
    } else if name == "UserIsChapado"@ {
        (respond(chapado_response()), items)
    } else if name == "AlexaRevoltadaIntent"@ {
        (respond(text_response("Quem pergunta o que quer, ouve o que não quer, seu otário do otário."@, false)), items)
    } else {
        (respond(text_response(unknown_intent_text(), true)), items)
    }
}

/// The intents on which the skill gives up: a question without a `user_query`
/// slot or value, and an item slot without a value.
pub open spec fn intent_can_be_handled(intent: IntentRequest) -> bool {
    let name = intent.intent.name@;
    if name == "GetAICompletion"@ {
        has_question(intent)
    } else if name == "AddListaCompras"@ {
        slot_has_value_if_present(intent, "nova_compra"@)
    } else if name == "LimparListaCompras"@ {
        slot_has_value_if_present(intent, "item_compra"@)
    } else {
        true
    }
}

/// Answers an intent, with `roll` choosing the pun if one is told.
pub fn handle_intent_with_roll(list: &mut ShoppingList, intent: &IntentRequest, roll: u16) -> (r: RequestStep)
    requires
        intent_can_be_handled(*intent),
    ensures
        (r@, final(list)@) == intent_outcome(*intent, old(list)@, roll),
{
    let name = intent.intent.name.as_str();
    if str_eq(name, "GetAICompletion") {
        hangle_get_ai_completion(intent)
    } else if str_eq(name, "AMAZON.StopIntent") {
        reply(AlexaResponse::default().with_text(
            "Obrigado por utilizar os serviços da busco chega hoje facilities enterprises frete grátis 12 vezes sem juros no cartão, aceita cheque, parcela no pix, 19 e 90 o quilo, leve 3 pague 4.",
        ).should_end_session(true))
    } else if str_eq(name, "GetListaCompras") {
        let text = list.describe();
        reply(AlexaResponse::default().with_text(text.as_str()).should_end_session(false))
    } else if str_eq(name, "AddListaCompras") {
        add_item(list, intent)
    } else if str_eq(name, "LimparListaCompras") {
        clear_items(list, intent)
    } else if str_eq(name, "TrocadilhoIntent") {
        let t = pun_text(roll);
        reply(AlexaResponse::default().with_text(t.as_str()))
    } else if str_eq(name, "UserIsChapado") {
        reply(AlexaResponse::default()
            .with_ssml("<amazon:emotion name='excited' intensity='high'>Aí entende rápido, hein!!!</amazon:emotion>")
            .with_reprompt_text("você ainda quer alguma coisa?"))
    } else if str_eq(name, "AlexaRevoltadaIntent") {
        reply(AlexaResponse::default().with_text("Quem pergunta o que quer, ouve o que não quer, seu otário do otário."))
    } else {
        reply(AlexaResponse::default().with_text("Pede o que você quer direito, cabeção.").should_end_session(true))
    }
}

/// Answers an intent; a pun, when one is told, is drawn at random.
pub fn handle_intent_request(list: &mut ShoppingList, intent: &IntentRequest) -> (r: RequestStep)
    requires
        intent_can_be_handled(*intent),
    ensures
        exists|roll: u16| (r@, final(list)@) == intent_outcome(*intent, old(list)@, roll),
        intent.intent.name@ != "TrocadilhoIntent"@ ==> (r@, final(list)@) == intent_outcome(*intent, old(list)@, 0),
{
    let roll = if str_eq(intent.intent.name.as_str(), "TrocadilhoIntent") {
        random_u16()
    } else {
        0
    };
    let r = handle_intent_with_roll(list, intent, roll);
    assert((r@, list@) == intent_outcome(*intent, old(list)@, roll));
    r
}

/// The request type named in the body of a request; a body without a `type`
/// field is `Generic`.
pub open spec fn body_request_type(request: AlexaApiRequest) -> RequestType {
    match request.body_type {
        Some(t) => parse_request_type(t@),
        None => RequestType::Generic,
    }
}

/// The requests on which the skill gives up: intent requests whose intent it gives
/// up on (see [`intent_can_be_handled`]).
pub open spec fn request_can_be_handled(request: AlexaApiRequest) -> bool {
    body_request_type(request) == RequestType::IntentRequest ==> match request.intent {
        Some(i) => intent_can_be_handled(i),
        None => true,
    }
}

/// The goodbye when the session ends.
pub open spec fn goodbye_ssml() -> Seq<char> {
    "Aquele abraço então caro colega!"@
}

/// What the skill does with a request, given the shopping list before it and the
/// number drawn for a pun; the second component is the list after it.
pub open spec fn request_outcome(request: AlexaApiRequest, items: Seq<Seq<char>>, roll: u16) -> (StepModel, Seq<Seq<char>>) {
    let t = body_request_type(request);
    if t == RequestType::LaunchRequest {
        (respond(launch_response()), items)
    } else if t == RequestType::SessionEndedRequest {
        (respond(ssml_response(goodbye_ssml(), true)), items)
    } else if t == RequestType::IntentRequest {
        match request.intent {
            Some(i) => intent_outcome(i, items, roll),
            None => (respond(default_response()), items),
        }
    } else {
        (respond(ssml_response("quero comer bananas: "@ + t.name(), true)), items)
    }
}

/// Answers a request from Alexa, or says which question to put to the completion
/// service first. A pun, when one is told, is drawn at random.
pub fn alexa_request(list: &mut ShoppingList, request: &AlexaApiRequest) -> (r: RequestStep)
    requires
        request_can_be_handled(*request),
    ensures
        exists|roll: u16| (r@, final(list)@) == request_outcome(*request, old(list)@, roll),
        request.intent matches Some(i) && i.intent.name@ != "TrocadilhoIntent"@
            ==> (r@, final(list)@) == request_outcome(*request, old(list)@, 0),
        request.intent is None ==> (r@, final(list)@) == request_outcome(*request, old(list)@, 0),
{
    let rt = match &request.body_type {
        Some(t) => match RequestType::from_str(t.as_str()) {
            Ok(rt) => rt,
            Err(rt) => rt,
        },
        None => RequestType::Generic,
    };
    let ghost mut roll: u16 = 0;
    let r = match rt {
        RequestType::LaunchRequest => RequestStep::Respond(handle_launch_request(request)),
        RequestType::SessionEndedRequest => reply(
            AlexaResponse::new_with_ssml("Aquele abraço então caro colega!").should_end_session(true),
        ),
        RequestType::IntentRequest => match &request.intent {
            Some(i) => {
                let r = handle_intent_request(list, i);
                proof {
                    roll = choose|roll: u16| (r@, list@) == intent_outcome(*i, old(list)@, roll);
                    if i.intent.name@ != "TrocadilhoIntent"@ {
                        roll = 0;
                    }
                }
                r
            },
            None => RequestStep::Respond(ApiResponse::default()),
        },
        _ => {
            let mut text = String::from_str("quero comer bananas: ");
            let name = rt.to_string();
            text.append(name.as_str());
            reply(AlexaResponse::new_with_ssml(text.as_str()).should_end_session(true))
        },
    };
    assert((r@, list@) == request_outcome(*request, old(list)@, roll));
    r
}

/// The message with which the skill stops on an unwrapped missing value.
pub open spec fn unwrap_none_message() -> Seq<char> {
    "called `Option::unwrap()` on a `None` value"@
}

/// The message with which the skill stops when the slot `key` is present without
/// a value.
pub open spec fn missing_value_message(intent: IntentRequest, key: Seq<char>) -> Option<Seq<char>> {
    match intent.spec_slot(key) {
        Some(c) => if c.spec_value() is None {
            Some(unwrap_none_message())
        } else {
            None
        },
        None => None,
    }
}

/// The message with which the skill stops on an intent, if it gives up on it.
pub open spec fn intent_panic_message(intent: IntentRequest) -> Option<Seq<char>> {
    let name = intent.intent.name@;
    if name == "GetAICompletion"@ {
        match intent.spec_slot("user_query"@) {
            None => Some("não sei o que responder se não me perguntam nada."@),
            Some(a) => if a.spec_value() is None {
                Some("como que respondo uma pergunta que não existe?"@)
            } else {
                None
            },
        }
    } else if name == "AddListaCompras"@ {
        missing_value_message(intent, "nova_compra"@)
    } else if name == "LimparListaCompras"@ {
        missing_value_message(intent, "item_compra"@)
    } else {
        None
    }
}

/// The message with which the skill stops on a request, if it gives up on it.
pub open spec fn request_panic_message(request: AlexaApiRequest) -> Option<Seq<char>> {
    if body_request_type(request) == RequestType::IntentRequest {
        match request.intent {
            Some(i) => intent_panic_message(i),
            None => None,
        }
    } else {
        None
    }
}

fn missing_value_reason(intent: &IntentRequest, key: &str) -> (r: Option<String>)
    ensures
        opt_view(r) == missing_value_message(*intent, key@),
        r is None <==> slot_has_value_if_present(*intent, key@),
{
    match intent.get_slot(key) {
        Some(c) => match c.value() {
            None => Some(String::from_str("called `Option::unwrap()` on a `None` value")),
            Some(_) => None,
        },
        None => None,
    }
}

/// Why the skill gives up on an intent, if it does: the message it stops with.
fn intent_panic_reason(intent: &IntentRequest) -> (r: Option<String>)
    ensures
        opt_view(r) == intent_panic_message(*intent),
        r is None <==> intent_can_be_handled(*intent),
{
    let name = intent.intent.name.as_str();
    if str_eq(name, "GetAICompletion") {
        match intent.get_slot("user_query") {
            None => Some(String::from_str("não sei o que responder se não me perguntam nada.")),
            Some(a) => match a.value() {
                None => Some(String::from_str("como que respondo uma pergunta que não existe?")),
                Some(_) => None,
            },
        }
    } else if str_eq(name, "AddListaCompras") {
        missing_value_reason(intent, "nova_compra")
    } else if str_eq(name, "LimparListaCompras") {
        missing_value_reason(intent, "item_compra")
    } else {
        None
    }
}

/// Why the skill gives up on a request, if it does: the message it stops with.
/// `None` exactly when [`alexa_request`] may be called on it.
pub fn request_panic_reason(request: &AlexaApiRequest) -> (r: Option<String>)
    ensures
        opt_view(r) == request_panic_message(*request),
        r is None <==> request_can_be_handled(*request),
{
    let rt = match &request.body_type {
        Some(t) => match RequestType::from_str(t.as_str()) {
            Ok(rt) => rt,
            Err(rt) => rt,
        },
        None => RequestType::Generic,
    };
    match rt {
        RequestType::IntentRequest => match &request.intent {
            Some(i) => intent_panic_reason(i),
            None => None,
        },
        _ => None,
    }
}

/// How a call to the completion service went: the written-out content of its
/// reply, no answer at all, or a reply that could not be read (with the reason).
pub enum CompletionOutcome {
    Reply(String),
    Unreachable,
    BadReply(String),
}

/// What the skill says after a call to the completion service.
pub open spec fn completion_said(outcome: CompletionOutcome) -> Seq<char> {
    match outcome {
        CompletionOutcome::Reply(raw) => spoken_completion(raw@),
        CompletionOutcome::Unreachable => "A inteligência artificial não quer responder sua pergunta agora."@,
        CompletionOutcome::BadReply(reason) => reason@,
    }
}

/// Answers a question once the completion service was called: the answer, or what
/// went wrong, said as plain text, keeping the session open.
pub fn finish_completion(outcome: &CompletionOutcome) -> (r: ApiResponse)
    ensures
        r@ == (ApiResponseModel { version: api_version(), response: text_response(completion_said(*outcome), false) }),
{
    let s = match outcome {
        CompletionOutcome::Reply(raw) => completion_text(raw.as_str()),
        CompletionOutcome::Unreachable => String::from_str("A inteligência artificial não quer responder sua pergunta agora."),
        CompletionOutcome::BadReply(reason) => reason.clone(),
    };
    ApiResponse::default().with_response(AlexaResponse::default().with_text(s.as_str()).should_end_session(false))
}

// ---------------------------------------------------------------------------
// The completion service's reply
// ---------------------------------------------------------------------------

/// The abstract content of a [`CompletionOutcome`].
pub enum CompletionModel {
    Reply(Seq<char>),
    Unreachable,
    BadReply(Seq<char>),
}

impl View for CompletionOutcome {
    type V = CompletionModel;

    open spec fn view(&self) -> CompletionModel {
        match self {
            CompletionOutcome::Reply(c) => CompletionModel::Reply(c@),
            CompletionOutcome::Unreachable => CompletionModel::Unreachable,
            CompletionOutcome::BadReply(m) => CompletionModel::BadReply(m@),
        }
    }
}

/// The content of a reply document as it is spoken from: the text of
/// `choices[0].message.content`; or, when a field on that path is missing, the
/// message with which the skill gives up.
pub open spec fn reply_content(j: Json) -> Result<Seq<char>, Seq<char>> {
    match json_get(j, "choices"@) {
        None => Err("IA burra nao sabe responder."@),
        Some(choices) => match json_index(choices, 0) {
            None => Err("IA burra não sabe responder."@),
            Some(first) => match json_get(first, "message"@) {
                None => Err("no message found in response"@),
                Some(message) => match json_get(message, "content"@) {
                    None => Err("no content found in response"@),
                    Some(content) => Ok(content.text@),
                },
            },
        },
    }
}

/// How a reply turns out, from its parsed body: its content; a body that is not
/// JSON, with the parser's message; or, as an error, the message with which the
/// skill gives up on a reply that lacks a field.
pub open spec fn reply_outcome(parsed: Result<Json, Seq<char>>) -> Result<CompletionModel, Seq<char>> {
    match parsed {
        Err(m) => Ok(CompletionModel::BadReply(m)),
        Ok(j) => match reply_content(j) {
            Ok(c) => Ok(CompletionModel::Reply(c)),
            Err(m) => Err(m),
        },
    }
}

/// An outcome or a message, as views.
pub open spec fn outcome_result_view(r: Result<CompletionOutcome, String>) -> Result<CompletionModel, Seq<char>> {
    match r {
        Ok(o) => Ok(o@),
        Err(m) => Err(m@),
    }
}

/// The text of `choices[0].message.content` in a reply document, or the message
/// with which the skill gives up when a field on that path is missing.
pub fn content_of_reply(j: &Json) -> (r: Result<String, String>)
    ensures
        match r {
            Ok(c) => reply_content(*j) == Ok::<Seq<char>, Seq<char>>(c@),
            Err(m) => reply_content(*j) == Err::<Seq<char>, Seq<char>>(m@),
        },
{
    let choices = match get(j, "choices") {
        Some(c) => c,
        None => return Err(String::from_str("IA burra nao sabe responder.")),
    };
    let first = match get_index(choices, 0) {
        Some(f) => f,
        None => return Err(String::from_str("IA burra não sabe responder.")),
    };
    let message = match get(first, "message") {
        Some(m) => m,
        None => return Err(String::from_str("no message found in response")),
    };
    match get(message, "content") {
        Some(content) => Ok(content.text.clone()),
        None => Err(String::from_str("no content found in response")),
    }
}

/// How a reply turns out, from its parsed body: its content; a body that is not
/// JSON, with the parser's message; or, as an error, the message with which the
/// skill gives up on a reply that lacks a field.
pub fn completion_from_parsed(parsed: Result<Json, String>) -> (r: Result<CompletionOutcome, String>)
    ensures
        outcome_result_view(r) == reply_outcome(parsed_view(parsed)),
{
    match parsed {
        Err(m) => Ok(CompletionOutcome::BadReply(m)),
        Ok(j) => match content_of_reply(&j) {
            Ok(c) => Ok(CompletionOutcome::Reply(c)),
            Err(m) => Err(m),
        },
    }
}

/// Reads the body of the completion service's reply: the written-out content of
/// the first choice's message, a body that is not JSON (with the parser's message),
/// or, as an error, the message with which the skill gives up on a reply that lacks
/// a field.
pub fn completion_from_body(body: &str) -> (r: Result<CompletionOutcome, String>)
    ensures
        outcome_result_view(r) == reply_outcome(json_parse(body@)),
{
    completion_from_parsed(parse_json(body))
}

// ---------------------------------------------------------------------------
// When the shopping list cannot be had
// ---------------------------------------------------------------------------

/// Whether answering the intent takes the shopping list: reading it, emptying it or
/// removing from it, or adding a named item.
pub open spec fn intent_locks_list(intent: IntentRequest) -> bool {
    let name = intent.intent.name@;
    name == "GetListaCompras"@ || name == "LimparListaCompras"@ || (name == "AddListaCompras"@
        && intent.spec_slot("nova_compra"@) is Some)
}

/// Whether answering the request takes the shopping list.
pub open spec fn request_locks_list(request: AlexaApiRequest) -> bool {
    body_request_type(request) == RequestType::IntentRequest && match request.intent {
        Some(i) => intent_locks_list(i),
        None => false,
    }
}

/// Whether answering the request takes the shopping list.
pub fn locks_list(request: &AlexaApiRequest) -> (r: bool)
    ensures
        r == request_locks_list(*request),
{
    let rt = match &request.body_type {
        Some(t) => match RequestType::from_str(t.as_str()) {
            Ok(rt) => rt,
            Err(rt) => rt,
        },
        None => RequestType::Generic,
    };
    match rt {
        RequestType::IntentRequest => match &request.intent {
            Some(i) => {
                let name = i.intent.name.as_str();
                str_eq(name, "GetListaCompras") || str_eq(name, "LimparListaCompras") || (str_eq(
                    name,
                    "AddListaCompras",
                ) && i.get_slot("nova_compra").is_some())
            },
            None => false,
        },
        _ => false,
    }
}

/// What the skill says when the list cannot be had: for a request that adds a named
/// item, that the item could not be added; for other requests nothing (the skill
/// gives up on them).
pub open spec fn refused_add_outcome(request: AlexaApiRequest) -> Option<StepModel> {
    if body_request_type(request) == RequestType::IntentRequest {
        match request.intent {
            Some(i) => if i.intent.name@ == "AddListaCompras"@ {
                match i.spec_slot("nova_compra"@) {
                    Some(c) => match c.spec_value() {
                        Some(v) => Some(
                            respond(
                                ResponseModel {
                                    speech: text_speech(
                                        "Não foi possível adicionar "@ + v@
                                            + " a sua lista. Tente na páscoa."@,
                                    ),
                                    reprompt: Some(text_speech(add_reprompt())),
                                    ..default_response()
                                },
                            ),
                        ),
                        None => None,
                    },
                    None => None,
                }
            } else {
                None
            },
            None => None,
        }
    } else {
        None
    }
}

/// The answer when the list cannot be had, for a request that adds a named item;
/// `None` for other requests.
pub fn answer_without_list(request: &AlexaApiRequest) -> (r: Option<RequestStep>)
    ensures
        match refused_add_outcome(*request) {
            Some(m) => r matches Some(s) && s@ == m,
            None => r is None,
        },
{
    let rt = match &request.body_type {
        Some(t) => match RequestType::from_str(t.as_str()) {
            Ok(rt) => rt,
            Err(rt) => rt,
        },
        None => RequestType::Generic,
    };
    match rt {
        RequestType::IntentRequest => match &request.intent {
            Some(i) => {
                if !str_eq(i.intent.name.as_str(), "AddListaCompras") {
                    return None;
                }
                match i.get_slot("nova_compra") {
                    Some(c) => match c.value() {
                        Some(v) => {
                            let mut text = String::from_str("Não foi possível adicionar ");
                            text.append(v.as_str());
                            text.append(" a sua lista. Tente na páscoa.");
                            Some(
                                reply(
                                    AlexaResponse::default().with_text(
                                        text.as_str(),
                                    ).with_reprompt_text("que mais precisas oh amigo?"),
                                ),
                            )
                        },
                        None => None,
                    },
                    None => None,
                }
            },
            None => None,
        },
        _ => None,
    }
}

// ---------------------------------------------------------------------------
// Laws
// ---------------------------------------------------------------------------

/// Reading out the list after an item was added: the item comes last, after a
/// comma when the list was not empty.
pub proof fn lemma_list_text_after_add(items: Seq<Seq<char>>, item: Seq<char>)
    ensures
        list_text(items.push(item)) == if items.len() == 0 {
            "Sua lista de compras é: "@ + item
        } else {
            list_text(items) + ","@ + item
        },
{
    let p = items.push(item);
    assert(p.drop_last() =~= items);
    if items.len() == 0 {
        assert(join_with(p, ","@) == item);
    } else {
        assert(join_with(p, ","@) == join_with(items, ","@) + ","@ + item);
        assert(list_text(p) =~= list_text(items) + ","@ + item);
    }
}

/// Removing an item just added, when no earlier item has the same lowercase form,
/// removes that item and gives back the list as it was.
pub proof fn lemma_remove_after_add(items: Seq<Seq<char>>, item: Seq<char>)
    requires
        first_true(match_flags(items, lowercase(item))) is None,
    ensures
        first_true(match_flags(items.push(item), lowercase(item))) == Some(items.len() as int),
        items.push(item).remove(items.len() as int) == items,
{
    let flags = match_flags(items, lowercase(item));
    let flags2 = match_flags(items.push(item), lowercase(item));
    assert forall|k: int| 0 <= k <= items.len() implies first_true_from(flags2, k) == Some(
        items.len() as int,
    ) && (first_true_from(flags, k) is None) by {
        lemma_first_true_tail(flags, flags2, items.len() as int, k);
    }
    assert(items.push(item).remove(items.len() as int) =~= items);
}

proof fn lemma_first_true_tail(flags: Seq<bool>, flags2: Seq<bool>, n: int, k: int)
    requires
        n == flags.len(),
        flags2.len() == n + 1,
        forall|j: int| 0 <= j < n ==> flags2[j] == flags[j],
        flags2[n],
        first_true_from(flags, 0) is None,
        0 <= k <= n,
    ensures
        first_true_from(flags2, k) == Some(n),
        first_true_from(flags, k) is None,
    decreases n - k,
{
    if k < n {
        lemma_first_true_none_prefix(flags, k);
        lemma_first_true_tail(flags, flags2, n, k + 1);
    }
}

proof fn lemma_first_true_none_prefix(flags: Seq<bool>, k: int)
    requires
        first_true_from(flags, 0) is None,
        0 <= k < flags.len(),
    ensures
        !flags[k],
        first_true_from(flags, k) is None,
    decreases k,
{
    if k > 0 {
        lemma_first_true_none_prefix(flags, k - 1);
    }
}

/// Replacing a pattern that does not occur leaves the text as it is.
pub proof fn lemma_replace_all_absent(s: Seq<char>, pat: Seq<char>, rep: Seq<char>)
    requires
        forall|i: int| !occurs_at(s, pat, i),
    ensures
        replace_all(s, pat, rep) == s,
    decreases s.len(),
{
    if pat.len() == 0 || s.len() == 0 {
    } else {
        let t = s.skip(1);
        assert forall|i: int| !occurs_at(t, pat, i) by {
            if occurs_at(t, pat, i) {
                assert(s.subrange(i + 1, i + 1 + pat.len()) =~= t.subrange(i, i + pat.len()));
                assert(occurs_at(s, pat, i + 1));
            }
        }
        lemma_replace_all_absent(t, pat, rep);
        assert(!occurs_at(s, pat, 0));
        assert(seq![s[0]] + t =~= s);
    }
}

/// A completion without backslashes is said exactly as written.
pub proof fn lemma_completion_without_escapes(raw: Seq<char>)
    requires
        !raw.contains('\\'),
    ensures
        spoken_completion(raw) == raw,
{
    reveal_strlit("\\\"");
    reveal_strlit("\\n");
    assert forall|i: int| !occurs_at(raw, "\\\""@, i) by {
        if occurs_at(raw, "\\\""@, i) {
            assert(raw.subrange(i, i + 2)[0] == '\\');
            assert(raw[i] == '\\');
        }
    }
    lemma_replace_all_absent(raw, "\\\""@, "'"@);
    assert forall|i: int| !occurs_at(raw, "\\n"@, i) by {
        if occurs_at(raw, "\\n"@, i) {
            assert(raw.subrange(i, i + 2)[0] == '\\');
            assert(raw[i] == '\\');
        }
    }
    lemma_replace_all_absent(raw, "\\n"@, "\n"@);
}

/// Every answer carries the protocol version `1.0`.
pub proof fn lemma_answers_carry_version(request: AlexaApiRequest, items: Seq<Seq<char>>, roll: u16)
    ensures
        request_outcome(request, items, roll).0 matches StepModel::Respond(m) ==> m.version == api_version(),
{
}

/// After the list is emptied, reading it out says that it is empty.
pub proof fn lemma_list_empty_after_clear(
    clear: IntentRequest,
    read: IntentRequest,
    items: Seq<Seq<char>>,
    roll: u16,
)
    requires
        clear.intent.name@ == "LimparListaCompras"@,
        clear.spec_slot("item_compra"@) is None,
        read.intent.name@ == "GetListaCompras"@,
    ensures
        intent_outcome(clear, items, roll).1 == Seq::<Seq<char>>::empty(),
        intent_outcome(read, intent_outcome(clear, items, roll).1, roll)
            == (respond(text_response("Sua lista de compras está vazia."@, false)), Seq::<Seq<char>>::empty()),
{
    lemma_intent_names_differ();
}

/// Reading out the list after an item was added ends with that item, and the list
/// then holds it last.
pub proof fn lemma_list_after_add_intent(
    add: IntentRequest,
    read: IntentRequest,
    items: Seq<Seq<char>>,
    roll: u16,
)
    requires
        add.intent.name@ == "AddListaCompras"@,
        add.spec_slot("nova_compra"@) matches Some(c) && c.spec_value() is Some,
        read.intent.name@ == "GetListaCompras"@,
    ensures
        ({
            let item = add.spec_slot("nova_compra"@)->Some_0.spec_value()->Some_0@;
            let after = intent_outcome(add, items, roll).1;
            &&& after == items.push(item)
            &&& intent_outcome(read, after, roll) == (respond(text_response(list_text(items.push(item)), false)), after)
            &&& list_text(after) == if items.len() == 0 {
                "Sua lista de compras é: "@ + item
            } else {
                list_text(items) + ","@ + item
            }
        }),
{
    lemma_intent_names_differ();
    let item = add.spec_slot("nova_compra"@)->Some_0.spec_value()->Some_0@;
    lemma_list_text_after_add(items, item);
}

proof fn lemma_intent_names_differ()
    ensures
        "LimparListaCompras"@ != "GetAICompletion"@,
        "LimparListaCompras"@ != "AMAZON.StopIntent"@,
        "LimparListaCompras"@ != "GetListaCompras"@,
        "LimparListaCompras"@ != "AddListaCompras"@,
        "AddListaCompras"@ != "GetAICompletion"@,
        "AddListaCompras"@ != "AMAZON.StopIntent"@,
        "AddListaCompras"@ != "GetListaCompras"@,
        "GetListaCompras"@ != "GetAICompletion"@,
        "GetListaCompras"@ != "AMAZON.StopIntent"@,
{
    reveal_strlit("LimparListaCompras");
    reveal_strlit("GetAICompletion");
    reveal_strlit("AMAZON.StopIntent");
    reveal_strlit("GetListaCompras");
    reveal_strlit("AddListaCompras");
    assert("LimparListaCompras"@[0] != "GetAICompletion"@[0]);
    assert("LimparListaCompras"@[0] != "AMAZON.StopIntent"@[0]);
    assert("LimparListaCompras"@[0] != "GetListaCompras"@[0]);
    assert("LimparListaCompras"@[0] != "AddListaCompras"@[0]);
    assert("AddListaCompras"@[1] != "GetAICompletion"@[1]);
    assert("AddListaCompras"@[1] != "AMAZON.StopIntent"@[1]);
    assert("AddListaCompras"@[0] != "GetListaCompras"@[0]);
    assert("GetListaCompras"@[3] != "GetAICompletion"@[3]);
    assert("GetListaCompras"@[0] != "AMAZON.StopIntent"@[0]);
}

/// What the first `true` at or after `k` is: a `true` with only `false` before it
/// from `k` on, or, when there is none, only `false` from `k` on.
pub proof fn lemma_first_true_from(bs: Seq<bool>, k: int)
    requires
        0 <= k,
    ensures
        first_true_from(bs, k) matches Some(j) ==> k <= j < bs.len() && bs[j] && forall|m: int|
            k <= m < j ==> !bs[m],
        first_true_from(bs, k) is None <==> forall|m: int| k <= m < bs.len() ==> !bs[m],
    decreases bs.len() - k,
{
    if k < bs.len() && !bs[k] {
        lemma_first_true_from(bs, k + 1);
    }
}

/// A canned answer is given only when its pattern compiles and matches the
/// question, and one is given whenever some pattern does; which one, when several
/// match, is not part of the promise.
pub proof fn lemma_preset_answer_is_a_match(input: Seq<char>)
    ensures
        preset_answer(input) matches Some(a) ==> exists|i: int|
            0 <= i < deserved_responses().len() && preset_applies(i, input) && a
                == deserved_responses()[i].1,
        preset_answer(input) is None <==> forall|i: int|
            0 <= i < deserved_responses().len() ==> !preset_applies(i, input),
{
    let hits = preset_hits(input);
    lemma_first_true_from(hits, 0);
    assert(hits.len() == deserved_responses().len());
    assert forall|i: int| 0 <= i < hits.len() implies hits[i] == preset_applies(i, input) by {}
    if first_true(hits) is None {
        assert forall|i: int| 0 <= i < deserved_responses().len() implies !preset_applies(i, input) by {
            assert(!hits[i]);
        }
    } else {
        let j = first_true(hits)->Some_0;
        assert(preset_applies(j, input));
    }
}

/// A request that does not take the shopping list neither changes it nor depends
/// on it.
pub proof fn lemma_outcome_without_list_use(
    request: AlexaApiRequest,
    items: Seq<Seq<char>>,
    other: Seq<Seq<char>>,
    roll: u16,
)
    requires
        !request_locks_list(request),
    ensures
        request_outcome(request, items, roll).1 == items,
        request_outcome(request, items, roll).0 == request_outcome(request, other, roll).0,
{
}

/// Which item removal by name takes: the first item equal to the name once both are
/// lowercased; when no item is, none.
pub proof fn lemma_removal_by_name(items: Seq<Seq<char>>, name: Seq<char>)
    ensures
        match first_true(match_flags(items, lowercase(name))) {
            Some(i) => 0 <= i < items.len() && lowercase(items[i]) == lowercase(name) && forall|j: int|
                0 <= j < i ==> lowercase(items[j]) != lowercase(name),
            None => forall|j: int| 0 <= j < items.len() ==> lowercase(items[j]) != lowercase(name),
        },
{
    let flags = match_flags(items, lowercase(name));
    lemma_first_true_from(flags, 0);
    if first_true(flags) is None {
        assert forall|j: int| 0 <= j < items.len() implies lowercase(items[j]) != lowercase(name) by {
            assert(!flags[j]);
        }
    } else {
        let i = first_true(flags)->Some_0;
        assert(flags[i]);
        assert forall|j: int| 0 <= j < i implies lowercase(items[j]) != lowercase(name) by {
            assert(!flags[j]);
        }
    }
}

/// Emptying the list of a named item takes out the first item equal to the name
/// once both are lowercased, keeping every other item in order, and says so; when
/// no item is equal so, the list stays as it was and the answer says it was not
/// found.
pub proof fn lemma_clear_named_item(intent: IntentRequest, items: Seq<Seq<char>>, roll: u16)
    requires
        intent.intent.name@ == "LimparListaCompras"@,
        intent.spec_slot("item_compra"@) matches Some(c) && c.spec_value() is Some,
    ensures
        ({
            let s = intent.spec_slot("item_compra"@)->Some_0.spec_value()->Some_0@;
            let (step, after) = intent_outcome(intent, items, roll);
            ||| (after == items && (forall|j: int| 0 <= j < items.len() ==> lowercase(items[j]) != lowercase(s))
                && step == respond(text_response("Item "@ + s + " não encontrado na lista de compras."@, false)))
            ||| exists|i: int|
                0 <= i < items.len() && lowercase(items[i]) == lowercase(s) && (forall|j: int|
                    0 <= j < i ==> lowercase(items[j]) != lowercase(s)) && after == items.remove(i)
                    && step == respond(text_response("Item "@ + s + " removido da lista com sucesso chega hoje!"@, false))
        }),
{
    lemma_intent_names_differ();
    let s = intent.spec_slot("item_compra"@)->Some_0.spec_value()->Some_0@;
    lemma_removal_by_name(items, s);
}

/// Whether a question gets a canned answer, and which, depends on the question only
/// through its lowercase form.
pub proof fn lemma_canned_answer_ignores_case(
    i1: IntentRequest,
    i2: IntentRequest,
    items: Seq<Seq<char>>,
    roll: u16,
)
    requires
        i1.intent.name@ == "GetAICompletion"@,
        i2.intent.name@ == "GetAICompletion"@,
        has_question(i1),
        has_question(i2),
        lowercase(ai_question(i1)) == lowercase(ai_question(i2)),
    ensures
        (intent_outcome(i1, items, roll).0 is Respond) == (intent_outcome(i2, items, roll).0 is Respond),
        intent_outcome(i1, items, roll).0 is Respond ==> intent_outcome(i1, items, roll).0 == intent_outcome(i2, items, roll).0,
{
}

/// Replacing in a text that starts with the pattern replaces that occurrence and
/// then goes on with the rest, so adjacent occurrences are all replaced.
pub proof fn lemma_replace_all_leading(pat: Seq<char>, s: Seq<char>, rep: Seq<char>)
    requires
        pat.len() > 0,
    ensures
        replace_all(pat + s, pat, rep) == rep + replace_all(s, pat, rep),
{
    let t = pat + s;
    assert(t.subrange(0, pat.len() as int) =~= pat);
    assert(t.skip(pat.len() as int) =~= s);
}

/// Two escaped newlines in a row are both said as newlines.
pub proof fn lemma_completion_double_newline(after: Seq<char>)
    ensures
        replace_all("\\n"@ + ("\\n"@ + after), "\\n"@, "\n"@) == "\n"@ + ("\n"@ + replace_all(after, "\\n"@, "\n"@)),
{
    reveal_strlit("\\n");
    lemma_replace_all_leading("\\n"@, "\\n"@ + after, "\n"@);
    lemma_replace_all_leading("\\n"@, after, "\n"@);
}

/// An intent request whose intent could be read is answered as that intent is.
pub proof fn lemma_intent_request_answered_by_intent(
    request: AlexaApiRequest,
    items: Seq<Seq<char>>,
    roll: u16,
)
    requires
        body_request_type(request) == RequestType::IntentRequest,
        request.intent is Some,
    ensures
        request_outcome(request, items, roll) == intent_outcome(request.intent->Some_0, items, roll),
{
}

/// The canned answers: for each pattern, in the order they are tried, the answer
/// given to a question that it matches.
pub proof fn lemma_canned_answer_table()
    ensures
        deserved_responses().len() == 8,
        deserved_responses()[0] == ("(ão|ao)+[!\\.]?$"@, "Meu pau na sua mão"@),
        deserved_responses()[1] == ("(au|al)+[!\\?\\.]?$"@, "Teu cool no meu pau."@),
        deserved_responses()[2] == ("(iste)[!\\.\\?]?$"@, "Meu pau em riste!"@),
        deserved_responses()[3] == ("(cala|calar).*(boca)"@, "calar a boquinha já morreu, senta com força e pega no meu."@),
        deserved_responses()[4] == ("(ente)[!\\.\\?]?$"@, "Meu pau você bem sente."@),
        deserved_responses()[5] == ("([ctj]u|ool|ul)[!\\.\\?]?$"@, "Meu pau no seu cool."@),
        deserved_responses()[6] == ("(ol)[\\.\\?!]?$"@, "Teu cool no meu anzol."@),
        deserved_responses()[7] == ("(el|éu)[\\.\\?!]?$"@, "Meu pau no teu anel."@),
{
}

/// A question gets the answer of the first pattern that compiles and matches it.
pub proof fn lemma_first_applicable_answer(input: Seq<char>, k: int)
    requires
        0 <= k < deserved_responses().len(),
        regex_compiles(deserved_responses()[k].0),
        regex_is_match(deserved_responses()[k].0, input),
        forall|j: int|
            0 <= j < k ==> !(regex_compiles(deserved_responses()[j].0) && regex_is_match(deserved_responses()[j].0, input)),
    ensures
        preset_answer(input) == Some(deserved_responses()[k].1),
{
    let hits = preset_hits(input);
    lemma_first_true_from(hits, 0);
    assert(hits[k]);
    if let Some(j) = first_true(hits) {
        if j < k {
            assert(hits[j]);
            assert(preset_applies(j, input));
        }
        if j > k {
            assert(!hits[k]);
        }
    }
}

/// A question that ends in "au" or "al", possibly followed by one of `!?.`, as the
/// second pattern reads it, and that the first pattern does not match, gets the
/// answer "Teu cool no meu pau.".
pub proof fn lemma_au_al_answer(input: Seq<char>)
    requires
        regex_compiles("(au|al)+[!\\?\\.]?$"@),
        regex_is_match("(au|al)+[!\\?\\.]?$"@, input),
        !(regex_compiles("(ão|ao)+[!\\.]?$"@) && regex_is_match("(ão|ao)+[!\\.]?$"@, input)),
    ensures
        preset_answer(input) == Some("Teu cool no meu pau."@),
{
    lemma_canned_answer_table();
    lemma_first_applicable_answer(input, 1);
}

} // verus!
