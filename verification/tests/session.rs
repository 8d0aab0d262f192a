use std::hash::{DefaultHasher, Hash, Hasher};

use tephrite_rs::session::{
    block_name_for_hash, check_shmem_key, parse_rank, generate_session_id, launch_plan, library_name,
    make_support_key,
    prepend_to_list, shared_mem_block_name, support_key_for, trimmed_session_id, LaunchPlan,
    SessionID, ShmemKeyError,
};

fn std_hash(s: &str) -> u64 {
    let mut hasher = DefaultHasher::new();
    s.to_string().hash(&mut hasher);
    hasher.finish()
}

#[test]
fn session_ids_lose_leading_punctuation() {
    let id = SessionID("--{ab-c}".to_string());
    assert_eq!(id.as_str(), "--{ab-c}");
    assert_eq!(trimmed_session_id(&id), "ab-c}");
    assert_eq!(trimmed_session_id(&SessionID("---".to_string())), "");
}

#[test]
fn block_names_hash_the_trimmed_session_id() {
    assert_eq!(block_name_for_hash(1234), "/TEPH_1234");
    let id = SessionID("{67e55044-10b1-426f-9247-bb680e5fe0c8}".to_string());
    let name = shared_mem_block_name(&id);
    assert_eq!(name, format!("/TEPH_{}", std_hash("67e55044-10b1-426f-9247-bb680e5fe0c8}")));
    assert_eq!(name, shared_mem_block_name(&id));
    assert!(check_shmem_key(&name).is_ok());
}

#[test]
fn shmem_keys_must_be_one_slash_name() {
    assert_eq!(check_shmem_key("/TEPH_1"), Ok(()));
    assert_eq!(check_shmem_key("TEPH_1"), Err(ShmemKeyError::NotSlashName));
    assert_eq!(check_shmem_key(""), Err(ShmemKeyError::NotSlashName));
    assert_eq!(check_shmem_key("/a/b"), Err(ShmemKeyError::NotSlashName));
    let long = format!("/{}", "x".repeat(255));
    assert_eq!(check_shmem_key(&long), Err(ShmemKeyError::TooLong));
    let fits = format!("/{}", "x".repeat(254));
    assert_eq!(check_shmem_key(&fits), Ok(()));
    let wide = format!("/{}", "é".repeat(128));
    assert_eq!(check_shmem_key(&wide), Err(ShmemKeyError::TooLong));
    assert_eq!(ShmemKeyError::NotSlashName.message(), "key must be '/name'");
    assert_eq!(ShmemKeyError::TooLong.message(), "key too long");
}

#[test]
fn generated_session_ids_are_random_uuids() {
    let a = generate_session_id();
    let b = generate_session_id();
    assert_eq!(a.as_str().len(), 36);
    assert_eq!(a.as_str().as_bytes()[14], b'4');
    assert!(matches!(a.as_str().as_bytes()[19], b'8' | b'9' | b'a' | b'b'));
    assert_ne!(a.as_str(), b.as_str());
    assert_eq!(trimmed_session_id(&a), a.as_str());
}

#[test]
fn support_keys_take_eight_undashed_characters() {
    assert_eq!(support_key_for("12-34-5678-9abc"), "/TEPHSP_12345678");
    assert_eq!(support_key_for("--ab"), "/TEPHSP_ab");
    let key = make_support_key();
    assert_eq!(key.len(), 16);
    assert!(key.starts_with("/TEPHSP_"));
    assert!(key[8..].chars().all(|c| c.is_ascii_hexdigit() && !c.is_ascii_uppercase()));
}

#[test]
fn launches_need_at_least_one_render_process() {
    let plan = launch_plan(0, false);
    assert_eq!(plan, LaunchPlan { child_count: 1, simulator: true });
    let plan = launch_plan(3, false);
    assert_eq!(plan, LaunchPlan { child_count: 3, simulator: false });
    let plan = launch_plan(3, true);
    assert_eq!(plan, LaunchPlan { child_count: 3, simulator: true });
}

#[test]
fn search_paths_are_prepended() {
    assert_eq!(prepend_to_list("/opt/lib", Some("/usr/lib")), "/opt/lib:/usr/lib");
    assert_eq!(prepend_to_list("/opt/lib", Some("")), "/opt/lib");
    assert_eq!(prepend_to_list("/opt/lib", None), "/opt/lib");
}

#[test]
fn the_support_library_is_found_in_its_directory() {
    assert_eq!(library_name(None), "libvktephsupport.so");
    assert_eq!(library_name(Some("")), "libvktephsupport.so");
    assert_eq!(library_name(Some("/opt/teph")), "/opt/teph/libvktephsupport.so");
    assert_eq!(library_name(Some("/opt/teph/")), "/opt/teph/libvktephsupport.so");
    assert_eq!(
        library_name(Some("/opt/teph")),
        std::path::Path::new("/opt/teph").join("libvktephsupport.so").to_string_lossy()
    );
}

#[test]
fn render_ranks_parse_as_u32() {
    assert_eq!(parse_rank("0"), Some(0));
    assert_eq!(parse_rank("+7"), Some(7));
    assert_eq!(parse_rank("4294967295"), Some(u32::MAX));
    assert_eq!(parse_rank("4294967296"), None);
    assert_eq!(parse_rank(""), None);
    assert_eq!(parse_rank("-1"), None);
    assert_eq!(parse_rank("1a"), None);
}
