//! Reply bodies of the character routes.
use vstd::prelude::*;

use crate::models::characters as models;

verus! {

/// A character as clients see it: the stored row without its owner and image.
pub struct Character {
    pub id: i32,
    pub first_name: String,
    pub last_name: Option<String>,
    pub pronouns: Option<String>,
    pub quote: Option<String>,
}

/// A list of characters as clients see them.
pub struct Characters(pub Vec<Character>);

/// Body of a successful character creation: the new id, where the character
/// can be fetched, and how many more characters the user may create.
pub struct CreatedCharacter {
    pub id: i32,
    pub image_url: String,
    pub characters_left: u8,
}

/// The client's view of a stored character: every field but the owner and the image.
pub open spec fn public_character(character: models::Character) -> Character {
    Character {
        id: character.id,
        first_name: character.first_name,
        last_name: character.last_name,
        pronouns: character.pronouns,
        quote: character.quote,
    }
}

impl From<models::Character> for Character {
    fn from(character: models::Character) -> (r: Self)
        ensures
            r == public_character(character),
    {
        Character {
            id: character.id,
            first_name: character.first_name,
            last_name: character.last_name,
            pronouns: character.pronouns,
            quote: character.quote,
        }
    }
}

impl vstd::std_specs::convert::FromSpecImpl<models::Character> for Character {
    open spec fn obeys_from_spec() -> bool {
        true
    }

    open spec fn from_spec(v: models::Character) -> Self {
        public_character(v)
    }
}

impl View for Characters {
    type V = Seq<Character>;

    open spec fn view(&self) -> Seq<Character> {
        self.0@
    }
}

impl From<Vec<models::Character>> for Characters {
    /// Converts every stored character, keeping their order.
    fn from(characters: Vec<models::Character>) -> (r: Self)
        ensures
            r@ == characters@.map_values(|c: models::Character| public_character(c)),
    {
        let ghost input = characters@;
        let mut rest = characters;
        let mut reversed: Vec<Character> = Vec::new();
        while rest.len() > 0
            invariant
                rest@.len() + reversed@.len() == input.len(),
                rest@ == input.take(rest@.len() as int),
                forall|i: int|
                    0 <= i < reversed@.len() ==> #[trigger] reversed@[i] == public_character(
                        input[input.len() - 1 - i],
                    ),
            decreases rest@.len(),
        {
            let c = rest.pop().unwrap();
            reversed.push(Character::from(c));
        }
        let mut out: Vec<Character> = Vec::new();
        while reversed.len() > 0
            invariant
                reversed@.len() + out@.len() == input.len(),
                forall|i: int|
                    0 <= i < reversed@.len() ==> #[trigger] reversed@[i] == public_character(
                        input[input.len() - 1 - i],
                    ),
                forall|i: int|
                    0 <= i < out@.len() ==> #[trigger] out@[i] == public_character(input[i]),
            decreases reversed@.len(),
        {
            let c = reversed.pop().unwrap();
            out.push(c);
        }
        let r = Characters(out);
        assert(r@ =~= input.map_values(|c: models::Character| public_character(c)));
        r
    }
}

/// What the conversion gives is stated on `from` itself, over the view: a spec
/// function cannot build the `Vec` inside `Characters`, so the generic
/// statement through `from_spec` is not claimed.
impl vstd::std_specs::convert::FromSpecImpl<Vec<models::Character>> for Characters {
    open spec fn obeys_from_spec() -> bool {
        false
    }

    open spec fn from_spec(v: Vec<models::Character>) -> Self {
        choose|r: Self| r@ == v@.map_values(|c: models::Character| public_character(c))
    }
}

} // verus!
