use batoulab::derive::{derive_content_key, legacy_context, vendor_context};

const KEK: [u8; 32] = [0x07; 32];

#[test]
fn derive_is_repeatable_and_separates_contexts() {
    assert_eq!(derive_content_key(&KEK, "a"), derive_content_key(&KEK, "a"));
    assert_ne!(derive_content_key(&KEK, "a"), derive_content_key(&KEK, "b"));
    assert_ne!(derive_content_key(&KEK, "a"), derive_content_key(&[0x08; 32], "a"));
}

#[test]
fn derive_matches_known_answer() {
    assert_eq!(
        derive_content_key(&KEK, "vendor:mistral"),
        [
            243, 183, 171, 174, 25, 2, 164, 56, 254, 80, 198, 148, 176, 165, 92, 73, 29, 57, 252, 166, 67, 86, 27,
            33, 129, 146, 104, 56, 202, 224, 1, 139
        ]
    );
    assert_ne!(derive_content_key(&KEK, "a"), KEK);
}

#[test]
fn derive_takes_a_root_key_of_any_length() {
    assert_eq!(derive_content_key(&[], "a"), derive_content_key(&[], "a"));
    assert_ne!(derive_content_key(&[1, 2, 3], "a"), derive_content_key(&[1, 2, 4], "a"));
}

#[test]
fn context_labels_are_namespaced() {
    assert_eq!(vendor_context("mistral"), "vendor:mistral");
    assert_eq!(vendor_context("openai"), "vendor:openai");
    assert_eq!(vendor_context(""), "vendor:");
    assert_eq!(legacy_context("mistral"), "batoulab:mistral");
    assert_ne!(
        derive_content_key(&KEK, &vendor_context("openai")),
        derive_content_key(&KEK, &vendor_context("mistral"))
    );
}
