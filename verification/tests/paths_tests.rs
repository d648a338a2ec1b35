use scripts_runner::paths::{
    get_default_scripts_path, get_home_dir, home_dir_result, scripts_path_result,
};

const HOME_ERROR: &str = "Could not determine home directory";

#[test]
fn home_dir_result_hands_the_directory_on() {
    assert_eq!(home_dir_result(Some(String::from("/home/alice"))), Ok(String::from("/home/alice")));
    assert_eq!(home_dir_result(Some(String::new())), Ok(String::new()));
}

#[test]
fn home_dir_result_fails_without_a_directory() {
    assert_eq!(home_dir_result(None), Err(String::from(HOME_ERROR)));
}

#[test]
fn scripts_path_result_appends_separator_and_name() {
    assert_eq!(
        scripts_path_result(Some(String::from("/home/alice")), '/'),
        Ok(String::from("/home/alice/scripts"))
    );
    assert_eq!(
        scripts_path_result(Some(String::from("C:\\Users\\Alice")), '\\'),
        Ok(String::from("C:\\Users\\Alice\\scripts"))
    );
}

#[test]
fn scripts_path_result_always_adds_one_separator() {
    assert_eq!(scripts_path_result(Some(String::from("/")), '/'), Ok(String::from("//scripts")));
    assert_eq!(scripts_path_result(Some(String::new()), '/'), Ok(String::from("/scripts")));
}

#[test]
fn scripts_path_result_fails_with_the_same_message() {
    assert_eq!(scripts_path_result(None, '/'), Err(String::from(HOME_ERROR)));
    assert_eq!(scripts_path_result(None, '/'), home_dir_result(None));
}

#[test]
fn scripts_path_extends_the_home_dir_answer() {
    for home in ["/home/alice", "/root", "relative/dir", "/with space/ü"] {
        for separator in ['/', '\\'] {
            let dir = home_dir_result(Some(String::from(home))).unwrap();
            let expected = format!("{}{}scripts", dir, separator);
            assert_eq!(scripts_path_result(Some(String::from(home)), separator), Ok(expected));
        }
    }
}

#[test]
fn get_home_dir_answers_or_gives_the_message() {
    match get_home_dir() {
        Ok(dir) => assert!(!dir.is_empty()),
        Err(message) => assert_eq!(message, HOME_ERROR),
    }
}

#[test]
fn get_default_scripts_path_lies_below_the_home_dir() {
    match (get_home_dir(), get_default_scripts_path()) {
        (Ok(dir), Ok(path)) => {
            assert_eq!(path, format!("{}{}scripts", dir, std::path::MAIN_SEPARATOR));
        }
        (Err(a), Err(b)) => {
            assert_eq!(a, HOME_ERROR);
            assert_eq!(b, a);
        }
        (home, path) => panic!("lookups disagree: {:?} and {:?}", home, path),
    }
}
