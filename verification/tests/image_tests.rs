//! Image resolution: the static image map and single-match image queries.

use testsys::aws::{ami_name, lookup_static_image, random_suffix, single_image_id, RegionImage};
use testsys::error::Error;

fn map(entries: &[(&str, &str)]) -> Vec<RegionImage> {
    entries
        .iter()
        .map(|(region, id)| RegionImage { region: region.to_string(), id: id.to_string() })
        .collect()
}

#[test]
fn static_image_found_for_region() {
    let amis = map(&[("us-east-1", "ami-1")]);
    let id = lookup_static_image(&amis, "us-east-1").unwrap();
    assert_eq!(id, "ami-1");
}

#[test]
fn static_image_missing_region_is_not_found() {
    let amis = map(&[("us-east-1", "ami-1")]);
    let err = lookup_static_image(&amis, "us-west-2").unwrap_err();
    assert!(matches!(err, Error::NotFound { .. }));
}

#[test]
fn static_image_empty_map_is_not_found() {
    let amis = map(&[]);
    let err = lookup_static_image(&amis, "us-east-1").unwrap_err();
    assert!(matches!(err, Error::NotFound { .. }));
}

#[test]
fn static_image_first_entry_wins() {
    let amis = map(&[("us-east-1", "ami-1"), ("us-east-1", "ami-2"), ("eu-west-1", "ami-3")]);
    assert_eq!(lookup_static_image(&amis, "us-east-1").unwrap(), "ami-1");
    assert_eq!(lookup_static_image(&amis, "eu-west-1").unwrap(), "ami-3");
}

#[test]
fn single_image_is_returned() {
    let id = single_image_id(vec![Some("ami-42".to_string())]).unwrap();
    assert_eq!(id, "ami-42");
}

#[test]
fn multiple_images_are_ambiguous() {
    let err =
        single_image_id(vec![Some("ami-1".to_string()), Some("ami-2".to_string())]).unwrap_err();
    assert!(matches!(err, Error::Ambiguous { .. }));
}

#[test]
fn zero_images_are_not_found() {
    let err = single_image_id(Vec::new()).unwrap_err();
    assert!(matches!(err, Error::NotFound { .. }));
}

#[test]
fn image_without_id_cannot_be_built() {
    let err = single_image_id(vec![None]).unwrap_err();
    assert!(matches!(err, Error::Build { .. }));
}

#[test]
fn ami_name_has_standard_shape() {
    let name = ami_name("x86_64", "aws-ecs-1", "1.11.0", "abc123");
    assert_eq!(name, "bottlerocket-aws-ecs-1-x86_64-1.11.0-abc123");
}

#[test]
fn random_suffix_is_four_lowercase_letters() {
    let s = random_suffix();
    assert_eq!(s.len(), 4);
    assert!(s.chars().all(|c| c.is_ascii_lowercase()));
    let t = random_suffix();
    assert_eq!(t.len(), 4);
}
