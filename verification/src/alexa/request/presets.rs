//! The fixed texts of the skill: the puns it tells, and the canned answers it gives
//! to questions whose wording matches a pattern.
use vstd::prelude::*;

verus! {

/// How many puns the skill knows.
pub const TROCADILHOS_LEN: usize = 25;

/// The puns, in order.
pub open spec fn trocadilhos() -> Seq<Seq<char>> {
    seq![
        "Em buraco de cobra, tatu caminha dentro."@,
        "Queria ser legal assim como você."@,
        "Como sempre você com essa camisa."@,
        "Você está gozado hoje."@,
        "Você está metido hoje."@,
        "Você vai ter que se virar e aguentar a barra."@,
        "O CEO da empresa se chama Seu Kuke Myiama."@,
        "Você não gosta de café expresso, porque no cuador é mais forte."@,
        "Em casa, você tem tomada atrás do sofá?\n\t Por quê, você mexe com força?\n\t Não, só em fio grosso."@,
        "Gosta de jogos de tabuleiro? Você tem dado em casa?"@,
        "Nesse calor, até marinheiro em terra firme na boom da sua."@,
        "Tem um índio sentado no asfalto e outro sentado na grama. Qual dos dois tem terra na boomda?"@,
        "Você gosta de suco de umbu?\n\tRapaz, eu nunca vi umbu ser tão azedo."@,
        "Você está bem hoje?\n\t Bom... não como você, mas gostaria."@,
        "Você sabe fazer vitamina?\n\t Sim, por quê?\n\t Então bate uma pra mim.\n\t Claro, qual você quer?\n\t Só caqui com mamão na banana."@,
        "Você sabe tocar violão?\n\t  Sim!\n\t\tEntão toca uma pra mim."@,
        "Pessoal, hoje na aula eu quero que vocês façam grupos de quatro"@,
        "Nome com duplo sentido:\tJacinto Leite Aquino Rêgo."@,
        "Nome com duplo sentido:\tSophie Zannál."@,
        "Nome com duplo sentido:\tDeide Costa."@,
        "Nome com duplo sentido:\tDaniel Confuego Nargóla."@,
        "Nome com duplo sentido:\tJoão Cabral Que Melo Neto."@,
        "Nome com duplo sentido:\tVanessa Fadinha."@,
        "Nome com duplo sentido:\tTomás Turbano Pinto Maior."@,
        "Nome com duplo sentido:\tPaula Nabussa."@,
    ]
}

/// The pun at position `i`.
pub fn trocadilho(i: usize) -> (r: &'static str)
    requires
        i < TROCADILHOS_LEN,
    ensures
        r@ == trocadilhos()[i as int],
{
    match i {
        0 => "Em buraco de cobra, tatu caminha dentro.",
        1 => "Queria ser legal assim como você.",
        2 => "Como sempre você com essa camisa.",
        3 => "Você está gozado hoje.",
        4 => "Você está metido hoje.",
        5 => "Você vai ter que se virar e aguentar a barra.",
        6 => "O CEO da empresa se chama Seu Kuke Myiama.",
        7 => "Você não gosta de café expresso, porque no cuador é mais forte.",
        8 => "Em casa, você tem tomada atrás do sofá?\n\t Por quê, você mexe com força?\n\t Não, só em fio grosso.",
        9 => "Gosta de jogos de tabuleiro? Você tem dado em casa?",
        10 => "Nesse calor, até marinheiro em terra firme na boom da sua.",
        11 => "Tem um índio sentado no asfalto e outro sentado na grama. Qual dos dois tem terra na boomda?",
        12 => "Você gosta de suco de umbu?\n\tRapaz, eu nunca vi umbu ser tão azedo.",
        13 => "Você está bem hoje?\n\t Bom... não como você, mas gostaria.",
        14 => "Você sabe fazer vitamina?\n\t Sim, por quê?\n\t Então bate uma pra mim.\n\t Claro, qual você quer?\n\t Só caqui com mamão na banana.",
        15 => "Você sabe tocar violão?\n\t  Sim!\n\t\tEntão toca uma pra mim.",
        16 => "Pessoal, hoje na aula eu quero que vocês façam grupos de quatro",
        17 => "Nome com duplo sentido:\tJacinto Leite Aquino Rêgo.",
        18 => "Nome com duplo sentido:\tSophie Zannál.",
        19 => "Nome com duplo sentido:\tDeide Costa.",
        20 => "Nome com duplo sentido:\tDaniel Confuego Nargóla.",
        21 => "Nome com duplo sentido:\tJoão Cabral Que Melo Neto.",
        22 => "Nome com duplo sentido:\tVanessa Fadinha.",
        23 => "Nome com duplo sentido:\tTomás Turbano Pinto Maior.",
        _ => "Nome com duplo sentido:\tPaula Nabussa.",
    }
}

/// How many canned answers the skill knows.
pub const DESERVED_RESPONSES_LEN: usize = 8;

/// The canned answers as (pattern, answer) pairs, in the order they are tried. An
/// answer is given when its pattern matches somewhere in the lowercased question.
pub open spec fn deserved_responses() -> Seq<(Seq<char>, Seq<char>)> {
    seq![
        ("(ão|ao)+[!\\.]?$"@, "Meu pau na sua mão"@),
        ("(au|al)+[!\\?\\.]?$"@, "Teu cool no meu pau."@),
        ("(iste)[!\\.\\?]?$"@, "Meu pau em riste!"@),
        ("(cala|calar).*(boca)"@, "calar a boquinha já morreu, senta com força e pega no meu."@),
        ("(ente)[!\\.\\?]?$"@, "Meu pau você bem sente."@),
        ("([ctj]u|ool|ul)[!\\.\\?]?$"@, "Meu pau no seu cool."@),
        ("(ol)[\\.\\?!]?$"@, "Teu cool no meu anzol."@),
        ("(el|éu)[\\.\\?!]?$"@, "Meu pau no teu anel."@),
    ]
}

/// The canned answer at position `i`, as a (pattern, answer) pair.
pub fn deserved_response(i: usize) -> (r: (&'static str, &'static str))
    requires
        i < DESERVED_RESPONSES_LEN,
    ensures
        r.0@ == deserved_responses()[i as int].0,
        r.1@ == deserved_responses()[i as int].1,
{
    match i {
        0 => ("(ão|ao)+[!\\.]?$", "Meu pau na sua mão"),
        1 => ("(au|al)+[!\\?\\.]?$", "Teu cool no meu pau."),
        2 => ("(iste)[!\\.\\?]?$", "Meu pau em riste!"),
        3 => ("(cala|calar).*(boca)", "calar a boquinha já morreu, senta com força e pega no meu."),
        4 => ("(ente)[!\\.\\?]?$", "Meu pau você bem sente."),
        5 => ("([ctj]u|ool|ul)[!\\.\\?]?$", "Meu pau no seu cool."),
        6 => ("(ol)[\\.\\?!]?$", "Teu cool no meu anzol."),
        _ => ("(el|éu)[\\.\\?!]?$", "Meu pau no teu anel."),
    }
}

} // verus!
