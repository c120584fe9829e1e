use batoulab::chat::{
    completion_reply, conversation, first_choice, provider_title, role_name, system_prompt, to_wire,
    validation_url, ChatInput, ChatMessage, Message, Role,
};
use batoulab::error::{from_key_store_error, KeyStoreError, VaultError};
use batoulab::files::{
    chats_root, enc_path, history_path, join_path, kek_path, key_file_path, keys_dir, provider_from_name,
    service_name, vault_dirs, Provider, VaultFiles,
};

#[test]
fn paths_are_below_their_directories() {
    assert_eq!(join_path("/a", "b"), "/a/b");
    assert_eq!(chats_root("/home/u"), "/home/u/.config/BatouLab/chats");
    assert_eq!(keys_dir("/home/u/.config"), "/home/u/.config/BatouLab/keys");
    assert_eq!(key_file_path("/c"), "/c/.key.json");
    assert_eq!(history_path("/c"), "/c/index.json");
    assert_eq!(kek_path("/k"), "/k/.kek");
    assert_eq!(enc_path("/k", "mistral"), "/k/mistral.enc");
    assert_eq!(enc_path("", ""), "/.enc");
}

#[test]
fn providers_are_looked_up_by_name() {
    assert_eq!(provider_from_name("openai"), Ok(Provider::OpenAi));
    assert_eq!(provider_from_name("mistral"), Ok(Provider::Mistral));
    assert_eq!(provider_from_name("anthropic"), Err(KeyStoreError::UnknownProvider));
    assert_eq!(provider_from_name(""), Err(KeyStoreError::UnknownProvider));
    assert_eq!(service_name("openai"), Ok("BatouLab:openai"));
    assert_eq!(service_name("mistral"), Ok("BatouLab:mistral"));
    assert_eq!(service_name("OpenAI"), Err(KeyStoreError::UnknownProvider));
    assert_eq!(validation_url("openai"), Ok("https://api.openai.com/v1/models"));
    assert_eq!(validation_url("mistral"), Ok("https://api.mistral.ai/v1/models"));
    assert_eq!(validation_url("x"), Err(KeyStoreError::UnknownProvider));
}

#[test]
fn errors_describe_themselves() {
    assert_eq!(KeyStoreError::UnknownProvider.message(), "provider inconnu");
    assert_eq!(from_key_store_error(KeyStoreError::UnknownProvider), VaultError::UnknownProvider);
    assert_eq!(VaultError::UnknownProvider.message(), "provider inconnu");
    assert_eq!(VaultError::LockedError.message(), "locked");
    assert_eq!(VaultError::CryptoError.message(), "decryption failed");
    assert_eq!(VaultError::SerializationError.message(), "malformed stored data");
    assert_eq!(VaultError::IOError.message(), "input/output failure");
    assert_eq!(VaultError::ConfigError.message(), "configuration directory unavailable");
}

#[test]
fn credential_files_are_set_by_provider() {
    let mut files = VaultFiles::new();
    assert_eq!(files.credential(Provider::OpenAi), &None);
    files.set_credential(Provider::OpenAi, Some(vec![1]));
    files.set_credential(Provider::Mistral, Some(vec![2]));
    assert_eq!(files.openai, Some(vec![1]));
    assert_eq!(files.credential(Provider::Mistral), &Some(vec![2]));
    files.set_credential(Provider::OpenAi, None);
    assert_eq!(files.openai, None);
    assert_eq!(files.mistral, Some(vec![2]));
}

#[test]
fn messages_go_on_the_wire_in_order() {
    assert_eq!(role_name(Role::User), "user");
    assert_eq!(role_name(Role::Assistant), "assistant");
    assert_eq!(role_name(Role::System), "system");
    let input = ChatInput {
        provider: "mistral".to_string(),
        model: "mistral-small-latest".to_string(),
        api_key: None,
        messages: vec![
            Message { role: Role::System, content: "be brief".to_string(), ts: None },
            Message { role: Role::User, content: "hi".to_string(), ts: Some(5) },
        ],
    };
    let wire = to_wire(&input.messages);
    assert_eq!(wire.len(), 2);
    assert_eq!(wire[0].role, "system");
    assert_eq!(wire[0].content, "be brief");
    assert_eq!(wire[1].role, "user");
    assert_eq!(wire[1].content, "hi");
    assert_eq!(to_wire(&vec![]).len(), 0);
}

#[test]
fn the_first_choice_is_the_reply() {
    assert_eq!(first_choice(vec![]), None);
    assert_eq!(first_choice(vec!["a".to_string()]), Some("a".to_string()));
    assert_eq!(first_choice(vec!["a".to_string(), "b".to_string(), "c".to_string()]), Some("a".to_string()));
    assert_eq!(first_choice(vec![String::new(), "b".to_string()]), Some(String::new()));
}

#[test]
fn the_system_speaks_apart() {
    let say = |role: Role, text: &str| Message { role, content: text.to_string(), ts: None };
    let messages = vec![
        say(Role::System, "be brief"),
        say(Role::User, "hi"),
        say(Role::Assistant, "hello"),
        say(Role::System, "be kind"),
        say(Role::User, "bye"),
    ];
    assert_eq!(system_prompt(&messages), Some("be brief\n\nbe kind".to_string()));
    let wire = |role: &str, text: &str| ChatMessage { role: role.to_string(), content: text.to_string() };
    assert_eq!(conversation(&messages), vec![wire("user", "hi"), wire("assistant", "hello"), wire("user", "bye")]);
    assert_eq!(
        to_wire(&messages),
        vec![
            wire("system", "be brief"),
            wire("user", "hi"),
            wire("assistant", "hello"),
            wire("system", "be kind"),
            wire("user", "bye")
        ]
    );

    assert_eq!(system_prompt(&vec![]), None);
    assert_eq!(system_prompt(&vec![say(Role::User, "hi")]), None);
    assert_eq!(system_prompt(&vec![say(Role::System, "only")]), Some("only".to_string()));
    assert_eq!(system_prompt(&vec![say(Role::System, "")]), Some(String::new()));
    assert_eq!(conversation(&vec![say(Role::System, "only")]).len(), 0);
}

#[test]
fn a_missing_directory_is_a_configuration_error() {
    assert_eq!(
        vault_dirs(Some("/home/u"), Some("/home/u/.config")),
        Ok(("/home/u/.config/BatouLab/chats".to_string(), "/home/u/.config/BatouLab/keys".to_string()))
    );
    assert_eq!(vault_dirs(None, Some("/c")), Err(VaultError::ConfigError));
    assert_eq!(vault_dirs(Some("/h"), None), Err(VaultError::ConfigError));
    assert_eq!(vault_dirs(None, None), Err(VaultError::ConfigError));
    let (chats, keys) = vault_dirs(Some("/h"), Some("/c")).unwrap();
    assert_eq!(key_file_path(&chats), "/h/.config/BatouLab/chats/.key.json");
    assert_eq!(kek_path(&keys), "/c/BatouLab/keys/.kek");
}

#[test]
fn an_empty_reply_is_an_error_but_for_mistral() {
    assert_eq!(provider_title("openai"), "OpenAI");
    assert_eq!(provider_title("anthropic"), "Anthropic");
    assert_eq!(provider_title("mistral"), "Mistral");
    assert_eq!(provider_title("other"), "other");
    assert_eq!(completion_reply("openai", vec!["a".to_string(), "b".to_string()]), Ok("a".to_string()));
    assert_eq!(completion_reply("mistral", vec!["a".to_string()]), Ok("a".to_string()));
    assert_eq!(completion_reply("mistral", vec![]), Ok(String::new()));
    assert_eq!(completion_reply("openai", vec![]), Err("OpenAI: réponse vide".to_string()));
    assert_eq!(completion_reply("anthropic", vec![]), Err("Anthropic: réponse vide".to_string()));
}
