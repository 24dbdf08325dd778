use vstd::prelude::*;

verus! {

/// Relies on rand::random: an independently, freshly drawn value each
/// call. Nothing can be promised of the result, so nothing is.
pub assume_specification<T>[ rand::random::<T> ]() -> (r: T)
    where
        rand::distributions::Standard: rand::distributions::Distribution<T>,
;

/// One image-generation request: the user's prompt and the random seed
/// substituted into the fixed workflow template before submission.
pub struct ImageRequest {
    pub prompt: String,
    pub seed: u64,
}

impl ImageRequest {
    /// Builds a request for `prompt` with a freshly drawn 64-bit seed.
    /// The seed is never reused: each construction draws its own.
    pub fn new(prompt: String) -> (r: ImageRequest)
        ensures
            r.prompt == prompt,
    {
        let seed: u64 = rand::random::<u64>();
        ImageRequest { prompt, seed }
    }
}

/// Key path of the prompt text node in the workflow template: node,
/// section, field.
pub fn prompt_node_path() -> (r: (&'static str, &'static str, &'static str))
    ensures
        r.0@ == "6"@,
        r.1@ == "inputs"@,
        r.2@ == "text"@,
{
    ("6", "inputs", "text")
}

/// Key path of the random-seed node in the workflow template: node,
/// section, field.
pub fn seed_node_path() -> (r: (&'static str, &'static str, &'static str))
    ensures
        r.0@ == "13"@,
        r.1@ == "inputs"@,
        r.2@ == "noise_seed"@,
{
    ("13", "inputs", "noise_seed")
}

} // verus!
