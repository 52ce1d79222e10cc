use alexa_ai::alexa::request::api::{
    alexa_request, answer_without_list, completion_from_body, completion_from_parsed,
    completion_text, finish_completion, locks_list, get_full_query, handle_intent_request,
    handle_intent_with_roll, handle_launch_request, has_preset_response, preset_from_hits,
    pun_text, query_with_hint, request_panic_reason, CompletionOutcome, RequestStep,
    ShoppingList,
};
use alexa_ai::alexa::request::intent::{
    IntentRequest, IntentRequestIntent, IntentRequestSlot, IntentRequestSlotValue, SlotEntry,
};
use alexa_ai::alexa::request::presets::{trocadilho, TROCADILHOS_LEN};
use alexa_ai::alexa::request::AlexaApiRequest;
use alexa_ai::alexa::response::{ApiResponse, OutputSpeechType};
use alexa_ai::alexa::text::{join, replace};
use alexa_ai::alexa::json::{get, get_index, Json, JsonField, JsonValue};

fn slot_with(value: Option<&str>) -> IntentRequestSlot {
    IntentRequestSlot {
        confirmation_status: None,
        name: None,
        slot_value: IntentRequestSlotValue { slot_type: "Simple".to_string(), value: value.map(|s| s.to_string()) },
        source: None,
        value: None,
    }
}

fn intent(name: &str, locale: &str, slots: Vec<(&str, Option<&str>)>) -> IntentRequest {
    IntentRequest {
        intent_type: "IntentRequest".to_string(),
        request_id: "r".to_string(),
        timestamp: "t".to_string(),
        dialog_state: "COMPLETED".to_string(),
        locale: locale.to_string(),
        intent: IntentRequestIntent {
            name: name.to_string(),
            confirmation_status: "NONE".to_string(),
            slots: Some(
                slots
                    .into_iter()
                    .map(|(k, v)| SlotEntry { name: k.to_string(), slot: Some(slot_with(v)) })
                    .collect(),
            ),
        },
    }
}

fn request(body_type: Option<&str>, i: Option<IntentRequest>) -> AlexaApiRequest {
    AlexaApiRequest { version: "1.0".to_string(), body_type: body_type.map(|s| s.to_string()), intent: i }
}

fn said(step: RequestStep) -> (String, bool, Option<String>) {
    match step {
        RequestStep::Respond(r) => said_api(r),
        RequestStep::AskCompletion(q) => panic!("asked the completion service: {}", q),
    }
}

fn said_api(r: ApiResponse) -> (String, bool, Option<String>) {
    assert_eq!(r.version, "1.0");
    let o = r.response.output_speech;
    let text = match o.speech_type {
        OutputSpeechType::PlainText => o.text.unwrap(),
        OutputSpeechType::SSML => o.ssml.unwrap(),
        OutputSpeechType::Unknown => String::new(),
    };
    let reprompt = r.response.reprompt.map(|p| {
        let s = p.output_speech;
        s.text.or(s.ssml).unwrap()
    });
    (text, r.response.should_end_session, reprompt)
}

// ---- canned answers ------------------------------------------------------

#[test]
fn preset_answers_for_matching_endings() {
    let cases = [
        ("não", "Meu pau na sua mão"),
        ("que sal", "Teu cool no meu pau."),
        ("estou triste", "Meu pau em riste!"),
        ("cala essa boca", "calar a boquinha já morreu, senta com força e pega no meu."),
        ("o dia está quente", "Meu pau você bem sente."),
        ("céu azul", "Meu pau no seu cool."),
        ("futebol", "Teu cool no meu anzol."),
        ("pastel", "Meu pau no teu anel."),
    ];
    for (q, a) in cases {
        assert_eq!(has_preset_response(q), Some(a.to_string()), "question {}", q);
    }
}

#[test]
fn preset_answer_absent() {
    assert_eq!(has_preset_response("bom dia"), None);
    assert_eq!(has_preset_response(""), None);
}

#[test]
fn preset_from_hits_takes_first_hit() {
    let hits = vec![false, false, true, false, true, false, false, false];
    assert_eq!(preset_from_hits(&hits), Some("Meu pau em riste!".to_string()));
    assert_eq!(preset_from_hits(&vec![false; 8]), None);
    let last = vec![false, false, false, false, false, false, false, true];
    assert_eq!(preset_from_hits(&last), Some("Meu pau no teu anel.".to_string()));
}

// ---- questions -------------------------------------------------------------

#[test]
fn full_query_by_locale() {
    assert_eq!(get_full_query("Qual é a capital?", "pt-BR"), "Qual é a capital? (responda em português)");
    assert_eq!(get_full_query("What?", "EN-us"), "What? (answer in english)");
    assert_eq!(get_full_query("¿Qué?", "es-ES"), "¿Qué? (answer in the original language)");
}

#[test]
fn query_hint_expects_lowercase() {
    assert_eq!(query_with_hint("x", "pt-br"), "x (responda em português)");
    assert_eq!(query_with_hint("x", "PT-BR"), "x (answer in the original language)");
}

#[test]
fn completion_text_unescapes() {
    let raw = "\"Olá \\\"mundo\\\"\\nTchau\"";
    assert_eq!(completion_text(raw), "\"Olá 'mundo'\nTchau\"");
}

#[test]
fn completion_text_without_escapes_is_unchanged() {
    assert_eq!(completion_text("\"simples\""), "\"simples\"");
}

#[test]
fn replace_is_left_to_right_and_non_overlapping() {
    assert_eq!(replace("aaa", "aa", "b"), "ba");
    assert_eq!(replace("abcabc", "bc", ""), "aa");
    assert_eq!(replace("abc", "", "x"), "abc");
}

#[test]
fn join_with_separator() {
    let v = vec!["a".to_string(), "b".to_string(), "c".to_string()];
    assert_eq!(join(&v, ","), "a,b,c");
    assert_eq!(join(&Vec::new(), ","), "");
    assert_eq!(join(&vec!["só".to_string()], ","), "só");
}

// ---- shopping list ---------------------------------------------------------

#[test]
fn shopping_list_add_describe_remove_clear() {
    let mut l = ShoppingList::new();
    assert_eq!(l.describe(), "Sua lista de compras está vazia.");
    l.add("Arroz".to_string());
    l.add("feijão".to_string());
    assert_eq!(l.len(), 2);
    assert_eq!(l.describe(), "Sua lista de compras é: Arroz,feijão");
    assert!(l.remove_matching("ARROZ"));
    assert_eq!(l.describe(), "Sua lista de compras é: feijão");
    assert!(!l.remove_matching("leite"));
    assert_eq!(l.len(), 1);
    l.clear();
    assert_eq!(l.len(), 0);
}

#[test]
fn shopping_list_removes_only_first_match() {
    let mut l = ShoppingList::new();
    l.add("Ovo".to_string());
    l.add("ovo".to_string());
    assert!(l.remove_matching("oVo"));
    assert_eq!(l.describe(), "Sua lista de compras é: ovo");
}

// ---- puns --------------------------------------------------------------------

#[test]
fn pun_text_wraps_the_chosen_pun() {
    assert_eq!(TROCADILHOS_LEN, 25);
    assert_eq!(
        pun_text(27),
        "Aqui vai um trocadilho: Como sempre você com essa camisa.\n\nSe você gostou, deixa o seu like e se inscreva no anau... eita, canal!"
    );
    assert_eq!(trocadilho(0), "Em buraco de cobra, tatu caminha dentro.");
    assert_eq!(trocadilho(24), "Nome com duplo sentido:\tPaula Nabussa.");
}

// ---- intents -----------------------------------------------------------------

#[test]
fn ai_completion_with_preset_answer() {
    let mut l = ShoppingList::new();
    let i = intent("GetAICompletion", "pt-BR", vec![("user_query", Some("Vamos para o Japão"))]);
    assert_eq!(said(handle_intent_with_roll(&mut l, &i, 0)), ("Meu pau na sua mão".to_string(), false, None));
}

#[test]
fn ai_completion_asks_service() {
    let mut l = ShoppingList::new();
    let i = intent("GetAICompletion", "EN-US", vec![("user_query", Some("Who wrote Dom Casmurro"))]);
    match handle_intent_with_roll(&mut l, &i, 0) {
        RequestStep::AskCompletion(q) => assert_eq!(q, "Who wrote Dom Casmurro (answer in english)"),
        RequestStep::Respond(_) => panic!("answered without the service"),
    }
}

#[test]
fn stop_intent_ends_session() {
    let mut l = ShoppingList::new();
    let (t, end, rep) = said(handle_intent_with_roll(&mut l, &intent("AMAZON.StopIntent", "pt-BR", vec![]), 0));
    assert!(t.starts_with("Obrigado por utilizar os serviços"));
    assert!(end);
    assert_eq!(rep, None);
}

#[test]
fn add_then_get_list() {
    let mut l = ShoppingList::new();
    let add = intent("AddListaCompras", "pt-BR", vec![("nova_compra", Some("leite"))]);
    let (t, end, rep) = said(handle_intent_with_roll(&mut l, &add, 0));
    assert_eq!(t, "Item leite adicionado a sua lista com sucesso.");
    assert!(!end);
    assert_eq!(rep, Some("que mais precisas oh amigo?".to_string()));
    let add2 = intent("AddListaCompras", "pt-BR", vec![("nova_compra", Some("pão"))]);
    said(handle_intent_with_roll(&mut l, &add2, 0));
    let get = intent("GetListaCompras", "pt-BR", vec![]);
    assert_eq!(
        said(handle_intent_with_roll(&mut l, &get, 0)),
        ("Sua lista de compras é: leite,pão".to_string(), false, None)
    );
}

#[test]
fn add_without_item() {
    let mut l = ShoppingList::new();
    let add = intent("AddListaCompras", "pt-BR", vec![]);
    let (t, _, rep) = said(handle_intent_with_roll(&mut l, &add, 0));
    assert_eq!(t, "Quer adicionar o que na lista de compras, vacilão?");
    assert_eq!(rep, Some("que mais precisas oh amigo?".to_string()));
    assert_eq!(l.len(), 0);
}

#[test]
fn clear_list_and_remove_item() {
    let mut l = ShoppingList::new();
    l.add("Leite".to_string());
    l.add("café".to_string());
    let rm = intent("LimparListaCompras", "pt-BR", vec![("item_compra", Some("LEITE"))]);
    assert_eq!(
        said(handle_intent_with_roll(&mut l, &rm, 0)),
        ("Item LEITE removido da lista com sucesso chega hoje!".to_string(), false, None)
    );
    let rm2 = intent("LimparListaCompras", "pt-BR", vec![("item_compra", Some("manteiga"))]);
    assert_eq!(
        said(handle_intent_with_roll(&mut l, &rm2, 0)).0,
        "Item manteiga não encontrado na lista de compras."
    );
    assert_eq!(l.len(), 1);
    let clear = intent("LimparListaCompras", "pt-BR", vec![]);
    assert_eq!(said(handle_intent_with_roll(&mut l, &clear, 0)).0, "Lista de compras zerada!");
    let get = intent("GetListaCompras", "pt-BR", vec![]);
    assert_eq!(said(handle_intent_with_roll(&mut l, &get, 0)).0, "Sua lista de compras está vazia.");
}

#[test]
fn pun_intent_with_roll() {
    let mut l = ShoppingList::new();
    let p = intent("TrocadilhoIntent", "pt-BR", vec![]);
    let (t, end, _) = said(handle_intent_with_roll(&mut l, &p, 1));
    assert!(t.starts_with("Aqui vai um trocadilho: Queria ser legal assim como você."));
    assert!(!end);
}

#[test]
fn pun_intent_at_random_tells_a_known_pun() {
    let mut l = ShoppingList::new();
    let p = intent("TrocadilhoIntent", "pt-BR", vec![]);
    let (t, _, _) = said(handle_intent_request(&mut l, &p));
    assert!((0..TROCADILHOS_LEN).any(|k| t.contains(trocadilho(k))));
}

#[test]
fn chapado_and_revoltada_and_unknown() {
    let mut l = ShoppingList::new();
    let (t, end, rep) = said(handle_intent_with_roll(&mut l, &intent("UserIsChapado", "pt-BR", vec![]), 0));
    assert_eq!(t, "<amazon:emotion name='excited' intensity='high'>Aí entende rápido, hein!!!</amazon:emotion>");
    assert!(!end);
    assert_eq!(rep, Some("você ainda quer alguma coisa?".to_string()));
    let (t, end, _) = said(handle_intent_with_roll(&mut l, &intent("AlexaRevoltadaIntent", "pt-BR", vec![]), 0));
    assert_eq!(t, "Quem pergunta o que quer, ouve o que não quer, seu otário do otário.");
    assert!(!end);
    let (t, end, _) = said(handle_intent_with_roll(&mut l, &intent("Outra", "pt-BR", vec![]), 0));
    assert_eq!(t, "Pede o que você quer direito, cabeção.");
    assert!(end);
}

// ---- requests ------------------------------------------------------------------

#[test]
fn launch_request_greets() {
    let mut l = ShoppingList::new();
    let (t, end, rep) = said(alexa_request(&mut l, &request(Some("LaunchRequest"), None)));
    assert!(t.starts_with("Bem vindo ao busco resposta"));
    assert!(!end);
    assert!(rep.unwrap().starts_with("Para perguntar, diga:"));
    let (t2, _, _) = said_api(handle_launch_request(&request(None, None)));
    assert_eq!(t, t2);
}

#[test]
fn session_ended_says_goodbye() {
    let mut l = ShoppingList::new();
    assert_eq!(
        said(alexa_request(&mut l, &request(Some("SessionEndedRequest"), None))),
        ("Aquele abraço então caro colega!".to_string(), true, None)
    );
}

#[test]
fn other_requests_are_generic() {
    let mut l = ShoppingList::new();
    let expect = ("quero comer bananas: Generic".to_string(), true, None);
    assert_eq!(said(alexa_request(&mut l, &request(Some("Foo"), None))), expect);
    assert_eq!(said(alexa_request(&mut l, &request(None, None))), expect);
    assert_eq!(said(alexa_request(&mut l, &request(Some("CanCagarIntentRequest"), None))), expect);
}

#[test]
fn unreadable_intent_request_gives_default_response() {
    let mut l = ShoppingList::new();
    assert_eq!(said(alexa_request(&mut l, &request(Some("IntentRequest"), None))), (String::new(), false, None));
}

#[test]
fn intent_request_is_dispatched() {
    let mut l = ShoppingList::new();
    let i = intent("AddListaCompras", "pt-BR", vec![("nova_compra", Some("uva"))]);
    said(alexa_request(&mut l, &request(Some("IntentRequest"), Some(i))));
    assert_eq!(l.describe(), "Sua lista de compras é: uva");
}

#[test]
fn panic_reasons() {
    let ok = request(Some("IntentRequest"), Some(intent("GetAICompletion", "pt-BR", vec![("user_query", Some("a"))])));
    assert_eq!(request_panic_reason(&ok), None);
    let no_slot = request(Some("IntentRequest"), Some(intent("GetAICompletion", "pt-BR", vec![])));
    assert_eq!(
        request_panic_reason(&no_slot),
        Some("não sei o que responder se não me perguntam nada.".to_string())
    );
    let no_value = request(Some("IntentRequest"), Some(intent("GetAICompletion", "pt-BR", vec![("user_query", None)])));
    assert_eq!(
        request_panic_reason(&no_value),
        Some("como que respondo uma pergunta que não existe?".to_string())
    );
    let add_no_value = request(Some("IntentRequest"), Some(intent("AddListaCompras", "pt-BR", vec![("nova_compra", None)])));
    assert!(request_panic_reason(&add_no_value).is_some());
    let rm_no_value = request(Some("IntentRequest"), Some(intent("LimparListaCompras", "pt-BR", vec![("item_compra", None)])));
    assert!(request_panic_reason(&rm_no_value).is_some());
    let not_intent = request(Some("LaunchRequest"), Some(intent("GetAICompletion", "pt-BR", vec![])));
    assert_eq!(request_panic_reason(&not_intent), None);
}

#[test]
fn finish_completion_outcomes() {
    assert_eq!(
        said_api(finish_completion(&CompletionOutcome::Reply("\"Machado de Assis\\n\"".to_string()))),
        ("\"Machado de Assis\n\"".to_string(), false, None)
    );
    assert_eq!(
        said_api(finish_completion(&CompletionOutcome::Unreachable)),
        ("A inteligência artificial não quer responder sua pergunta agora.".to_string(), false, None)
    );
    assert_eq!(
        said_api(finish_completion(&CompletionOutcome::BadReply("EOF while parsing".to_string()))),
        ("EOF while parsing".to_string(), false, None)
    );
}

#[test]
fn remove_after_add_restores_list() {
    let mut l = ShoppingList::new();
    l.add("arroz".to_string());
    let before = l.describe();
    l.add("Café".to_string());
    assert!(l.remove_matching("Café"));
    assert_eq!(l.describe(), before);
    assert_eq!(l.len(), 1);
}

#[test]
fn every_answer_carries_version() {
    let mut l = ShoppingList::new();
    for t in [Some("LaunchRequest"), Some("SessionEndedRequest"), Some("IntentRequest"), None] {
        match alexa_request(&mut l, &request(t, None)) {
            RequestStep::Respond(r) => assert_eq!(r.version, "1.0"),
            RequestStep::AskCompletion(_) => panic!("no question was asked"),
        }
    }
}

#[test]
fn remove_first_flagged_item() {
    let mut l = ShoppingList::new();
    l.add("a".to_string());
    l.add("b".to_string());
    l.add("c".to_string());
    assert!(l.remove_first_flagged(&vec![false, true, true]));
    assert_eq!(l.describe(), "Sua lista de compras é: a,c");
    assert!(!l.remove_first_flagged(&vec![false, false]));
    assert_eq!(l.len(), 2);
}

fn outcome_text(o: CompletionOutcome) -> String {
    match o {
        CompletionOutcome::Reply(c) => format!("reply:{}", c),
        CompletionOutcome::Unreachable => "unreachable".to_string(),
        CompletionOutcome::BadReply(m) => format!("bad:{}", m),
    }
}

#[test]
fn completion_body_with_content() {
    let body = r#"{"choices":[{"message":{"role":"assistant","content":"Olá \"você\"\nTchau"}}]}"#;
    let o = completion_from_body(body).unwrap();
    assert_eq!(outcome_text(o), "reply:\"Olá \\\"você\\\"\\nTchau\"");
    let spoken = said_api(finish_completion(&completion_from_body(body).unwrap())).0;
    assert_eq!(spoken, "\"Olá 'você'\nTchau\"");
}

#[test]
fn completion_body_not_json() {
    let o = completion_from_body("not json").unwrap();
    assert!(outcome_text(o).starts_with("bad:expected ident"));
}

#[test]
fn completion_body_missing_fields() {
    assert_eq!(completion_from_body("{}").err(), Some("IA burra nao sabe responder.".to_string()));
    assert_eq!(completion_from_body(r#"{"choices":[]}"#).err(), Some("IA burra não sabe responder.".to_string()));
    assert_eq!(completion_from_body(r#"{"choices":[{}]}"#).err(), Some("no message found in response".to_string()));
    assert_eq!(
        completion_from_body(r#"{"choices":[{"message":{}}]}"#).err(),
        Some("no content found in response".to_string())
    );
}

fn leaf(text: &str, value: JsonValue) -> Json {
    Json { value, text: text.to_string() }
}

fn object(fields: Vec<(&str, Json)>) -> Json {
    Json {
        value: JsonValue::Object(
            fields.into_iter().map(|(k, v)| JsonField { key: k.to_string(), value: v }).collect(),
        ),
        text: String::new(),
    }
}

fn array(xs: Vec<Json>) -> Json {
    Json { value: JsonValue::Array(xs), text: String::new() }
}

#[test]
fn completion_from_parsed_by_step() {
    let content = leaf("\"oi\"", JsonValue::Str("oi".to_string()));
    let full = object(vec![("choices", array(vec![object(vec![("message", object(vec![("content", content)]))])]))]);
    assert_eq!(outcome_text(completion_from_parsed(Ok(full)).unwrap()), "reply:\"oi\"");
    assert_eq!(outcome_text(completion_from_parsed(Err("EOF".to_string())).unwrap()), "bad:EOF");
    assert_eq!(
        completion_from_parsed(Ok(object(vec![]))).err(),
        Some("IA burra nao sabe responder.".to_string())
    );
    assert_eq!(
        completion_from_parsed(Ok(object(vec![("choices", array(vec![]))]))).err(),
        Some("IA burra não sabe responder.".to_string())
    );
    assert_eq!(
        completion_from_parsed(Ok(object(vec![("choices", array(vec![object(vec![])]))]))).err(),
        Some("no message found in response".to_string())
    );
    assert_eq!(
        completion_from_parsed(Ok(object(vec![("choices", array(vec![object(vec![("message", object(vec![]))])]))]))).err(),
        Some("no content found in response".to_string())
    );
    let not_array = object(vec![("choices", leaf("1", JsonValue::Number))]);
    assert_eq!(completion_from_parsed(Ok(not_array)).err(), Some("IA burra não sabe responder.".to_string()));
}

#[test]
fn completion_body_content_written_out() {
    let body = r#"{"choices":[{"message":{"content":{"b":2,"a":[true,null,1.5]}}}]}"#;
    assert_eq!(outcome_text(completion_from_body(body).unwrap()), "reply:{\"a\":[true,null,1.5],\"b\":2}");
}

#[test]
fn json_lookups() {
    let j = object(vec![("a", leaf("1", JsonValue::Number)), ("b", array(vec![leaf("null", JsonValue::Null)]))]);
    assert_eq!(get(&j, "a").map(|x| x.text.clone()), Some("1".to_string()));
    assert!(get(&j, "c").is_none());
    let b = get(&j, "b").unwrap();
    assert_eq!(get_index(b, 0).map(|x| x.text.clone()), Some("null".to_string()));
    assert!(get_index(b, 1).is_none());
    assert!(get_index(&j, 0).is_none());
    assert!(get(b, "a").is_none());
}

#[test]
fn which_requests_take_the_list() {
    let r = |name: &str, slots: Vec<(&str, Option<&str>)>| request(Some("IntentRequest"), Some(intent(name, "pt-BR", slots)));
    assert!(locks_list(&r("GetListaCompras", vec![])));
    assert!(locks_list(&r("LimparListaCompras", vec![])));
    assert!(locks_list(&r("AddListaCompras", vec![("nova_compra", Some("uva"))])));
    assert!(!locks_list(&r("AddListaCompras", vec![])));
    assert!(!locks_list(&r("TrocadilhoIntent", vec![])));
    assert!(!locks_list(&request(Some("LaunchRequest"), Some(intent("GetListaCompras", "pt-BR", vec![])))));
}

#[test]
fn answer_when_list_cannot_be_had() {
    let add = request(Some("IntentRequest"), Some(intent("AddListaCompras", "pt-BR", vec![("nova_compra", Some("uva"))])));
    let step = answer_without_list(&add).expect("an answer");
    assert_eq!(
        said(step),
        (
            "Não foi possível adicionar uva a sua lista. Tente na páscoa.".to_string(),
            false,
            Some("que mais precisas oh amigo?".to_string())
        )
    );
    let get = request(Some("IntentRequest"), Some(intent("GetListaCompras", "pt-BR", vec![])));
    assert!(answer_without_list(&get).is_none());
}

#[test]
fn unwrap_panic_message() {
    let add_no_value = request(Some("IntentRequest"), Some(intent("AddListaCompras", "pt-BR", vec![("nova_compra", None)])));
    assert_eq!(
        request_panic_reason(&add_no_value),
        Some("called `Option::unwrap()` on a `None` value".to_string())
    );
}
