//! Localization by direct lookup: a plain mapping from translation key and
//! language to display text, with the key itself as fallback.
use vstd::prelude::*;

verus! {

use crate::strutil::str_eq;

/// The display languages the trainer offers.
#[derive(Debug, Clone, Copy, PartialEq, Eq, Structural)]
pub enum Language {
    Dutch,
    English,
    Portuguese,
    Spanish,
    French,
}

/// What `tr` returns for a key and a language.
pub open spec fn tr_spec(lang: Language, key: Seq<char>) -> Seq<char> {
    if key == "bishop"@ {
        match lang {
            Language::Dutch => "L"@,
            Language::English => "B"@,
            Language::Portuguese => "B"@,
            Language::Spanish => "A"@,
            Language::French => "F"@,
        }
    } else if key == "knight"@ {
        match lang {
            Language::Dutch => "P"@,
            Language::English => "N"@,
            Language::Portuguese => "C"@,
            Language::Spanish => "C"@,
            Language::French => "C"@,
        }
    } else if key == "rook"@ {
        match lang {
            Language::Dutch => "T"@,
            Language::English => "R"@,
            Language::Portuguese => "T"@,
            Language::Spanish => "T"@,
            Language::French => "T"@,
        }
    } else if key == "queen"@ {
        match lang {
            Language::Dutch => "D"@,
            Language::English => "Q"@,
            Language::Portuguese => "D"@,
            Language::Spanish => "D"@,
            Language::French => "D"@,
        }
    } else if key == "king"@ {
        match lang {
            Language::Dutch => "K"@,
            Language::English => "K"@,
            Language::Portuguese => "R"@,
            Language::Spanish => "R"@,
            Language::French => "R"@,
        }
    } else if key == "dutch"@ {
        match lang {
            Language::Dutch => "Nederlands"@,
            Language::English => "Dutch"@,
            Language::Portuguese => "Holandes"@,
            Language::Spanish => "Neerlandes"@,
            Language::French => "Neerlandais"@,
        }
    } else if key == "english"@ {
        match lang {
            Language::Dutch => "Engels"@,
            Language::English => "English"@,
            Language::Portuguese => "Ingles"@,
            Language::Spanish => "Ingles"@,
            Language::French => "Anglais"@,
        }
    } else if key == "portuguese"@ {
        match lang {
            Language::Dutch => "Portugees"@,
            Language::English => "Portuguese"@,
            Language::Portuguese => "Portugues"@,
            Language::Spanish => "Portugues"@,
            Language::French => "Portugais"@,
        }
    } else if key == "spanish"@ {
        match lang {
            Language::Dutch => "Spaans"@,
            Language::English => "Spanish"@,
            Language::Portuguese => "Espanhol"@,
            Language::Spanish => "Espanol"@,
            Language::French => "Espagnol"@,
        }
    } else if key == "french"@ {
        match lang {
            Language::Dutch => "Frans"@,
            Language::English => "French"@,
            Language::Portuguese => "Frances"@,
            Language::Spanish => "Frances"@,
            Language::French => "Francais"@,
        }
    } else if key == "white_to_move"@ {
        match lang {
            Language::Dutch => "Wit aan zet"@,
            Language::English => "White to move"@,
            Language::Portuguese => "Brancas jogam"@,
            Language::Spanish => "Juegan blancas"@,
            Language::French => "Les blancs jouent"@,
        }
    } else if key == "black_to_move"@ {
        match lang {
            Language::Dutch => "Zwart aan zet"@,
            Language::English => "Black to move"@,
            Language::Portuguese => "Negras jogam"@,
            Language::Spanish => "Juegan negras"@,
            Language::French => "Les noirs jouent"@,
        }
    } else if key == "correct_move"@ {
        match lang {
            Language::Dutch => "Goede zet!"@,
            Language::English => "Correct move!"@,
            Language::Portuguese => "Lance correto!"@,
            Language::Spanish => "Jugada correcta!"@,
            Language::French => "Coup correct !"@,
        }
    } else if key == "correct_puzzle"@ {
        match lang {
            Language::Dutch => "Puzzel opgelost!"@,
            Language::English => "Puzzle solved!"@,
            Language::Portuguese => "Quebra-cabeca resolvido!"@,
            Language::Spanish => "Puzle resuelto!"@,
            Language::French => "Puzzle resolu !"@,
        }
    } else if key == "all_puzzles_done"@ {
        match lang {
            Language::Dutch => "Alle puzzels gedaan!"@,
            Language::English => "All puzzles done!"@,
            Language::Portuguese => "Todos os quebra-cabecas resolvidos!"@,
            Language::Spanish => "Todos los puzles resueltos!"@,
            Language::French => "Tous les puzzles termines !"@,
        }
    } else if key == "wrong_move_white_play"@ {
        match lang {
            Language::Dutch => "Foute zet, wit aan zet"@,
            Language::English => "Wrong move, white to play"@,
            Language::Portuguese => "Lance errado, brancas jogam"@,
            Language::Spanish => "Jugada incorrecta, juegan blancas"@,
            Language::French => "Mauvais coup, les blancs jouent"@,
        }
    } else if key == "wrong_move_black_play"@ {
        match lang {
            Language::Dutch => "Foute zet, zwart aan zet"@,
            Language::English => "Wrong move, black to play"@,
            Language::Portuguese => "Lance errado, negras jogam"@,
            Language::Spanish => "Jugada incorrecta, juegan negras"@,
            Language::French => "Mauvais coup, les noirs jouent"@,
        }
    } else if key == "no_puzzle_found"@ {
        match lang {
            Language::Dutch => "Geen puzzel gevonden"@,
            Language::English => "No puzzle found"@,
            Language::Portuguese => "Nenhum quebra-cabeca encontrado"@,
            Language::Spanish => "Ningun puzle encontrado"@,
            Language::French => "Aucun puzzle trouve"@,
        }
    } else if key == "use_search"@ {
        match lang {
            Language::Dutch => "Gebruik de zoekfunctie"@,
            Language::English => "Use the search"@,
            Language::Portuguese => "Use a busca"@,
            Language::Spanish => "Usa la busqueda"@,
            Language::French => "Utilisez la recherche"@,
        }
    } else if key == "mate_in"@ {
        match lang {
            Language::Dutch => "Mat in "@,
            Language::English => "Mate in "@,
            Language::Portuguese => "Mate em "@,
            Language::Spanish => "Mate en "@,
            Language::French => "Mat en "@,
        }
    } else if key == "mate"@ {
        match lang {
            Language::Dutch => "Mat"@,
            Language::English => "Mate"@,
            Language::Portuguese => "Mate"@,
            Language::Spanish => "Mate"@,
            Language::French => "Mat"@,
        }
    } else {
        key
    }
}

fn pick(lang: &Language, nl: &'static str, en: &'static str, pt: &'static str, es: &'static str, fr: &'static str) -> (r: String)
    ensures
        r@ == match *lang {
            Language::Dutch => nl@,
            Language::English => en@,
            Language::Portuguese => pt@,
            Language::Spanish => es@,
            Language::French => fr@,
        },
{
    match lang {
        Language::Dutch => nl.to_owned(),
        Language::English => en.to_owned(),
        Language::Portuguese => pt.to_owned(),
        Language::Spanish => es.to_owned(),
        Language::French => fr.to_owned(),
    }
}

/// Look a key up in the translation table; an unknown key comes back
/// unchanged.
pub fn tr(lang: &Language, key: &str) -> (r: String)
    ensures
        r@ == tr_spec(*lang, key@),
{
    if str_eq(key, "bishop") {
        pick(lang, "L", "B", "B", "A", "F")
    } else if str_eq(key, "knight") {
        pick(lang, "P", "N", "C", "C", "C")
    } else if str_eq(key, "rook") {
        pick(lang, "T", "R", "T", "T", "T")
    } else if str_eq(key, "queen") {
        pick(lang, "D", "Q", "D", "D", "D")
    } else if str_eq(key, "king") {
        pick(lang, "K", "K", "R", "R", "R")
    } else if str_eq(key, "dutch") {
        pick(lang, "Nederlands", "Dutch", "Holandes", "Neerlandes", "Neerlandais")
    } else if str_eq(key, "english") {
        pick(lang, "Engels", "English", "Ingles", "Ingles", "Anglais")
    } else if str_eq(key, "portuguese") {
        pick(lang, "Portugees", "Portuguese", "Portugues", "Portugues", "Portugais")
    } else if str_eq(key, "spanish") {
        pick(lang, "Spaans", "Spanish", "Espanhol", "Espanol", "Espagnol")
    } else if str_eq(key, "french") {
        pick(lang, "Frans", "French", "Frances", "Frances", "Francais")
    } else if str_eq(key, "white_to_move") {
        pick(lang, "Wit aan zet", "White to move", "Brancas jogam", "Juegan blancas", "Les blancs jouent")
    } else if str_eq(key, "black_to_move") {
        pick(lang, "Zwart aan zet", "Black to move", "Negras jogam", "Juegan negras", "Les noirs jouent")
    } else if str_eq(key, "correct_move") {
        pick(lang, "Goede zet!", "Correct move!", "Lance correto!", "Jugada correcta!", "Coup correct !")
    } else if str_eq(key, "correct_puzzle") {
        pick(lang, "Puzzel opgelost!", "Puzzle solved!", "Quebra-cabeca resolvido!", "Puzle resuelto!", "Puzzle resolu !")
    } else if str_eq(key, "all_puzzles_done") {
        pick(
            lang,
            "Alle puzzels gedaan!",
            "All puzzles done!",
            "Todos os quebra-cabecas resolvidos!",
            "Todos los puzles resueltos!",
            "Tous les puzzles termines !",
        )
    } else if str_eq(key, "wrong_move_white_play") {
        pick(
            lang,
            "Foute zet, wit aan zet",
            "Wrong move, white to play",
            "Lance errado, brancas jogam",
            "Jugada incorrecta, juegan blancas",
            "Mauvais coup, les blancs jouent",
        )
    } else if str_eq(key, "wrong_move_black_play") {
        pick(
            lang,
            "Foute zet, zwart aan zet",
            "Wrong move, black to play",
            "Lance errado, negras jogam",
            "Jugada incorrecta, juegan negras",
            "Mauvais coup, les noirs jouent",
        )
    } else if str_eq(key, "no_puzzle_found") {
        pick(
            lang,
            "Geen puzzel gevonden",
            "No puzzle found",
            "Nenhum quebra-cabeca encontrado",
            "Ningun puzle encontrado",
            "Aucun puzzle trouve",
        )
    } else if str_eq(key, "use_search") {
        pick(lang, "Gebruik de zoekfunctie", "Use the search", "Use a busca", "Usa la busqueda", "Utilisez la recherche")
    } else if str_eq(key, "mate_in") {
        pick(lang, "Mat in ", "Mate in ", "Mate em ", "Mate en ", "Mat en ")
    } else if str_eq(key, "mate") {
        pick(lang, "Mat", "Mate", "Mate", "Mate", "Mat")
    } else {
        key.to_owned()
    }
}

/// A value that shows itself through the translation table.
pub trait DisplayTranslated {
    /// The translation key of this value.
    fn to_str_tr(&self) -> &str;
}

impl DisplayTranslated for Language {
    fn to_str_tr(&self) -> &str {
        match self {
            Language::Dutch => "dutch",
            Language::English => "english",
            Language::Portuguese => "portuguese",
            Language::Spanish => "spanish",
            Language::French => "french",
        }
    }
}

/// A list entry shown in the language the user picked.
#[derive(Debug, Clone)]
pub struct PickListWrapper<D: DisplayTranslated> {
    pub lang: Language,
    pub item: D,
}

impl PickListWrapper<Language> {
    /// One entry for each offered language.
    pub fn get_langs(lang: Language) -> (r: Vec<PickListWrapper<Language>>)
        ensures
            r@.len() == 5,
            forall|i: int| 0 <= i < 5 ==> #[trigger] r@[i].lang == lang,
            r@[0].item == Language::Dutch,
            r@[1].item == Language::English,
            r@[2].item == Language::Portuguese,
            r@[3].item == Language::Spanish,
            r@[4].item == Language::French,
    {
        let mut themes_wrapper: Vec<PickListWrapper<Language>> = Vec::new();
        themes_wrapper.push(PickListWrapper { lang, item: Language::Dutch });
        themes_wrapper.push(PickListWrapper { lang, item: Language::English });
        themes_wrapper.push(PickListWrapper { lang, item: Language::Portuguese });
        themes_wrapper.push(PickListWrapper { lang, item: Language::Spanish });
        themes_wrapper.push(PickListWrapper { lang, item: Language::French });
        themes_wrapper
    }

    pub fn new_lang(lang: Language, item: Language) -> (r: Self)
        ensures
            r.lang == lang,
            r.item == item,
    {
        Self { lang, item }
    }
}

/// The localized word for a piece named by its algebraic letter; anything
/// unrecognized names the king, as the table's last resort.
pub open spec fn piece_localized_spec(lang: Language, piece: Seq<char>) -> Seq<char> {
    if piece == "B"@ {
        tr_spec(lang, "bishop"@)
    } else if piece == "N"@ {
        tr_spec(lang, "knight"@)
    } else if piece == "R"@ {
        tr_spec(lang, "rook"@)
    } else if piece == "Q"@ {
        tr_spec(lang, "queen"@)
    } else {
        tr_spec(lang, "king"@)
    }
}

pub fn piece_localized(lang: &Language, piece: &str) -> (r: String)
    ensures
        r@ == piece_localized_spec(*lang, piece@),
{
    if str_eq(piece, "B") {
        tr(lang, "bishop")
    } else if str_eq(piece, "N") {
        tr(lang, "knight")
    } else if str_eq(piece, "R") {
        tr(lang, "rook")
    } else if str_eq(piece, "Q") {
        tr(lang, "queen")
    } else {
        tr(lang, "king")
    }
}

} // verus!
