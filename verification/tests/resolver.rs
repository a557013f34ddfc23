use oopisos::resolver::ResolveError;
use oopisos::resolver::join_path;
use oopisos::resolver::portable_subdir;
use oopisos::resolver::resolve_data_directory;

#[test]
fn portable_subdir_is_the_fixed_constant() {
    assert_eq!(portable_subdir(), "OopisOS_Data");
}

#[test]
fn join_inserts_one_separator() {
    assert_eq!(join_path("/apps/OopisOS", "OopisOS_Data"), "/apps/OopisOS/OopisOS_Data");
}

#[test]
fn join_does_not_double_a_trailing_separator() {
    assert_eq!(join_path("/apps/OopisOS/", "OopisOS_Data"), "/apps/OopisOS/OopisOS_Data");
}

#[test]
fn join_of_empty_directory_keeps_the_component_rooted() {
    assert_eq!(join_path("", "OopisOS_Data"), "/OopisOS_Data");
}

#[test]
fn resolves_portable_when_executable_dir_is_known() {
    let r = resolve_data_directory(Some("/apps/OopisOS"), None);
    assert_eq!(r, Ok(String::from("/apps/OopisOS/OopisOS_Data")));
}

#[test]
fn portable_wins_even_when_standard_path_is_also_known() {
    let r = resolve_data_directory(
        Some("/apps/OopisOS"),
        Some("/home/alice/.local/share/OopisOS"),
    );
    assert_eq!(r, Ok(String::from("/apps/OopisOS/OopisOS_Data")));
}

#[test]
fn falls_back_to_standard_path_when_executable_dir_is_unknown() {
    let r = resolve_data_directory(None, Some("/home/alice/.local/share/OopisOS"));
    assert_eq!(r, Ok(String::from("/home/alice/.local/share/OopisOS")));
}

#[test]
fn fails_when_neither_source_is_known() {
    let r = resolve_data_directory(None, None);
    assert_eq!(r, Err(ResolveError::Unavailable));
}

#[test]
fn unavailable_error_carries_a_diagnostic() {
    let m = ResolveError::Unavailable.message();
    assert!(!m.is_empty());
}
