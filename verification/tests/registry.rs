use duckgpt::models::Models;

#[test]
fn model_ids_are_the_backend_identifiers() {
    assert_eq!(Models::Mistral.model_id(), "dolphin-mistral");
    assert_eq!(Models::Caveman.model_id(), "caveman-mistral");
    assert_eq!(Models::Racist.model_id(), "racist-mistral");
    assert_eq!(Models::Lobotomy.model_id(), "tinyllama:1.1b-chat-v0.6-q2_K");
    assert_eq!(Models::Greentext.model_id(), "greentext-mistral");
}

#[test]
fn model_ids_are_distinct_and_nonempty() {
    let all = [
        Models::Mistral,
        Models::Caveman,
        Models::Racist,
        Models::Lobotomy,
        Models::Greentext,
    ];
    for a in all.iter() {
        assert!(!a.model_id().is_empty());
    }
    for i in 0..all.len() {
        for j in 0..all.len() {
            if i != j {
                assert_ne!(all[i].model_id(), all[j].model_id());
            }
        }
    }
}

#[test]
fn display_names_are_the_user_facing_names() {
    assert_eq!(Models::Mistral.display_name(), "mistral");
    assert_eq!(Models::Caveman.display_name(), "caveman");
    assert_eq!(Models::Racist.display_name(), "racist");
    assert_eq!(Models::Lobotomy.display_name(), "lobotomy");
    assert_eq!(Models::Greentext.display_name(), "greentext");
}
