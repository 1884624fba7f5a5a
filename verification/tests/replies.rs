use dex_client::credentials::{delete_reply, get_reply, save_reply, Exchange, StoreFailure};

fn missing() -> StoreFailure {
    StoreFailure {
        no_entry: true,
        message: String::from("No matching entry found in secure storage"),
    }
}

fn locked() -> StoreFailure {
    StoreFailure {
        no_entry: false,
        message: String::from("Couldn't access platform secure storage: locked"),
    }
}

#[test]
fn save_reply_of_a_kept_key_is_success() {
    assert_eq!(save_reply(Exchange::Done(())), Ok(()));
}

#[test]
fn save_reply_of_a_failure_is_its_message() {
    assert_eq!(
        save_reply(Exchange::Failed(locked())),
        Err(String::from("Couldn't access platform secure storage: locked"))
    );
    assert_eq!(
        save_reply(Exchange::NotOpened(locked())),
        Err(String::from("Couldn't access platform secure storage: locked"))
    );
}

#[test]
fn save_reply_of_a_missing_entry_is_an_error() {
    assert_eq!(
        save_reply(Exchange::Failed(missing())),
        Err(String::from("No matching entry found in secure storage"))
    );
    assert_eq!(
        save_reply(Exchange::NotOpened(missing())),
        Err(String::from("No matching entry found in secure storage"))
    );
}

#[test]
fn get_reply_of_a_found_key_is_the_key() {
    assert_eq!(
        get_reply(Exchange::Done(String::from("sk-123"))),
        Ok(Some(String::from("sk-123")))
    );
    assert_eq!(get_reply(Exchange::Done(String::new())), Ok(Some(String::new())));
}

#[test]
fn get_reply_of_a_missing_entry_is_empty() {
    assert_eq!(get_reply(Exchange::Failed(missing())), Ok(None));
}

#[test]
fn get_reply_of_a_failure_is_its_message() {
    assert_eq!(
        get_reply(Exchange::Failed(locked())),
        Err(String::from("Couldn't access platform secure storage: locked"))
    );
    assert_eq!(
        get_reply(Exchange::NotOpened(locked())),
        Err(String::from("Couldn't access platform secure storage: locked"))
    );
}

#[test]
fn get_reply_of_an_entry_that_was_not_opened_is_an_error() {
    assert_eq!(
        get_reply(Exchange::NotOpened(missing())),
        Err(String::from("No matching entry found in secure storage"))
    );
}

#[test]
fn delete_reply_of_a_removed_entry_is_success() {
    assert_eq!(delete_reply(Exchange::Done(())), Ok(()));
}

#[test]
fn delete_reply_of_a_missing_entry_is_success() {
    assert_eq!(delete_reply(Exchange::Failed(missing())), Ok(()));
}

#[test]
fn delete_reply_of_a_failure_is_its_message() {
    assert_eq!(
        delete_reply(Exchange::Failed(locked())),
        Err(String::from("Couldn't access platform secure storage: locked"))
    );
    assert_eq!(
        delete_reply(Exchange::NotOpened(locked())),
        Err(String::from("Couldn't access platform secure storage: locked"))
    );
}

#[test]
fn delete_reply_of_an_entry_that_was_not_opened_is_an_error() {
    assert_eq!(
        delete_reply(Exchange::NotOpened(missing())),
        Err(String::from("No matching entry found in secure storage"))
    );
}

#[test]
fn an_empty_message_is_passed_on_as_it_is() {
    let silent = || StoreFailure { no_entry: false, message: String::new() };
    assert_eq!(save_reply(Exchange::Failed(silent())), Err(String::new()));
    assert_eq!(get_reply(Exchange::Failed(silent())), Err(String::new()));
    assert_eq!(delete_reply(Exchange::Failed(silent())), Err(String::new()));
}
