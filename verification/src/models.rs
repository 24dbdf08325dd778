use vstd::prelude::*;

verus! {

/// The five user-facing model choices. Each maps one-to-one to a backend
/// model identifier string; the mapping is fixed at build time and total.
#[derive(Clone, Copy, Debug, PartialEq, Eq, Structural)]
pub enum Models {
    Mistral,
    Caveman,
    Racist,
    Lobotomy,
    Greentext,
}

impl Models {
    /// The backend identifier of a model choice, as a sequence of characters.
    pub open spec fn spec_id(self) -> Seq<char> {
        match self {
            Models::Mistral => "dolphin-mistral"@,
            Models::Caveman => "caveman-mistral"@,
            Models::Racist => "racist-mistral"@,
            Models::Lobotomy => "tinyllama:1.1b-chat-v0.6-q2_K"@,
            Models::Greentext => "greentext-mistral"@,
        }
    }

    /// The user-facing name of a model choice, as a sequence of characters.
    pub open spec fn spec_name(self) -> Seq<char> {
        match self {
            Models::Mistral => "mistral"@,
            Models::Caveman => "caveman"@,
            Models::Racist => "racist"@,
            Models::Lobotomy => "lobotomy"@,
            Models::Greentext => "greentext"@,
        }
    }

    /// Backend identifier submitted with a generation request.
    pub fn model_id(&self) -> (r: String)
        ensures
            r@ == self.spec_id(),
    {
        match self {
            Models::Mistral => String::from_str("dolphin-mistral"),
            Models::Caveman => String::from_str("caveman-mistral"),
            Models::Racist => String::from_str("racist-mistral"),
            Models::Lobotomy => String::from_str("tinyllama:1.1b-chat-v0.6-q2_K"),
            Models::Greentext => String::from_str("greentext-mistral"),
        }
    }

    /// Name under which the choice is offered to users.
    pub fn display_name(&self) -> (r: String)
        ensures
            r@ == self.spec_name(),
    {
        match self {
            Models::Mistral => String::from_str("mistral"),
            Models::Caveman => String::from_str("caveman"),
            Models::Racist => String::from_str("racist"),
            Models::Lobotomy => String::from_str("lobotomy"),
            Models::Greentext => String::from_str("greentext"),
        }
    }
}

/// Every model choice maps to a non-empty backend identifier, and distinct
/// choices map to distinct identifiers: the registry is injective.
pub proof fn lemma_model_ids_distinct_nonempty(a: Models, b: Models)
    ensures
        a.spec_id().len() > 0,
        a != b ==> a.spec_id() != b.spec_id(),
{
    reveal_strlit("dolphin-mistral");
    reveal_strlit("caveman-mistral");
    reveal_strlit("racist-mistral");
    reveal_strlit("tinyllama:1.1b-chat-v0.6-q2_K");
    reveal_strlit("greentext-mistral");
    assert("dolphin-mistral"@.len() == 15);
    assert("caveman-mistral"@.len() == 15);
    assert("racist-mistral"@.len() == 14);
    assert("tinyllama:1.1b-chat-v0.6-q2_K"@.len() == 29);
    assert("greentext-mistral"@.len() == 17);
    assert("dolphin-mistral"@[0] == 'd');
    assert("caveman-mistral"@[0] == 'c');
}

} // verus!
