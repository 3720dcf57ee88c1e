use renovate_k8s_trigger::naming::{
    can_name_job, job_name_from_uuid, job_name_with_suffix, name_suffix, unique_job_name,
};

fn is_suffix(s: &str) -> bool {
    s.len() == 8 && s.bytes().all(|b| b.is_ascii_digit() || (b'a'..=b'f').contains(&b))
}

#[test]
fn short_names_stand_whole() {
    assert_eq!(job_name_with_suffix("renovate", "a3f9c12b"), "renovate-manual-a3f9c12b");
}

#[test]
fn long_names_are_cut() {
    let longest = "x".repeat(47);
    let name = job_name_with_suffix(&longest, "a3f9c12b");
    assert_eq!(name, format!("{longest}-manual-a3f9c12b"));
    assert_eq!(name.len(), 63);

    let name = job_name_with_suffix(&"x".repeat(48), "a3f9c12b");
    assert_eq!(name, format!("{}-manua-a3f9c12b", "x".repeat(48)));
    assert_eq!(name.len(), 63);

    let name = job_name_with_suffix(&"x".repeat(200), "a3f9c12b");
    assert_eq!(name, format!("{}-a3f9c12b", "x".repeat(54)));
    assert_eq!(name.len(), 63);
}

#[test]
fn the_cut_is_counted_in_bytes() {
    let name = job_name_with_suffix(&"\u{e9}".repeat(30), "a3f9c12b");
    assert_eq!(name, format!("{}-a3f9c12b", "\u{e9}".repeat(27)));
    assert_eq!(name.len(), 63);
}

#[test]
fn which_names_can_be_cut() {
    assert!(can_name_job(""));
    assert!(can_name_job(&"x".repeat(1000)));
    assert!(can_name_job(&"\u{e9}".repeat(1000)));
    // The cut would fall inside a character.
    assert!(!can_name_job(&format!("x{}", "\u{e9}".repeat(1000))));
    assert!(can_name_job(&format!("x{}", "\u{e9}".repeat(20))));
}

#[test]
fn the_suffix_is_the_start_of_a_uuid() {
    assert_eq!(name_suffix("67e55044-10b1-426f-9247-bb680e5fe0c8"), "67e55044");
}

#[test]
fn suffixes_tell_names_apart() {
    assert_ne!(
        job_name_with_suffix("renovate", "a3f9c12b"),
        job_name_with_suffix("renovate", "a3f9c12c")
    );
}

#[test]
fn unique_names_have_a_random_end() {
    let one = unique_job_name("renovate");
    let two = unique_job_name("renovate");
    assert_eq!(&one[..16], "renovate-manual-");
    assert!(is_suffix(&one[16..]));
    assert!(is_suffix(&two[16..]));
    assert_ne!(one, two);

    let long = unique_job_name(&"x".repeat(100));
    assert_eq!(long.len(), 63);
    assert_eq!(&long[..55], format!("{}-", "x".repeat(54)));
    assert!(is_suffix(&long[55..]));
}

#[test]
fn uuids_tell_names_apart_by_their_first_digits() {
    let uuid = "67e55044-10b1-426f-9247-bb680e5fe0c8";
    let same_start = "67e55044-ffff-4fff-bfff-ffffffffffff";
    let other_start = "67e55045-10b1-426f-9247-bb680e5fe0c8";
    for cronjob_name in ["renovate".to_string(), "x".repeat(200)] {
        let name = job_name_from_uuid(&cronjob_name, uuid);
        assert_eq!(name, job_name_from_uuid(&cronjob_name, same_start));
        assert_ne!(name, job_name_from_uuid(&cronjob_name, other_start));
    }
    assert_eq!(job_name_from_uuid("renovate", uuid), "renovate-manual-67e55044");
}
