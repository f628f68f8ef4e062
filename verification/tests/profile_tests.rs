use cwduino_client::profile::{Profile, ProfileError};

#[test]
fn profile_loads_when_folder_and_scripts_exist() {
    let loaded = Profile::load(String::from("sounds/default"), true, true, true);
    assert_eq!(
        loaded,
        Ok(Profile { folder: String::from("sounds/default") })
    );
}

#[test]
fn missing_folder_is_reported_first() {
    let loaded = Profile::load(String::from("nowhere"), false, false, false);
    assert_eq!(loaded, Err(ProfileError::MissingFolder));
}

#[test]
fn missing_either_script_fails_validation() {
    assert_eq!(
        Profile::load(String::from("p"), true, false, true),
        Err(ProfileError::MissingScripts)
    );
    assert_eq!(
        Profile::load(String::from("p"), true, true, false),
        Err(ProfileError::MissingScripts)
    );
    assert_eq!(
        Profile::load(String::from("p"), true, false, false),
        Err(ProfileError::MissingScripts)
    );
}
