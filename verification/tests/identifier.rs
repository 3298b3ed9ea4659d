use trolley_lock::identifier::{classify, is_authorized, AllowList, CardIdentifier};

fn short(bytes: [u8; 4]) -> CardIdentifier {
    classify(bytes.to_vec()).unwrap()
}

#[test]
fn classify_short_form() {
    let id = classify(vec![106, 205, 135, 25]).unwrap();
    assert!(matches!(id, CardIdentifier::Short { .. }));
    assert_eq!(id.bytes().as_slice(), &[106, 205, 135, 25]);
}

#[test]
fn classify_long_form() {
    let id = classify(vec![1, 2, 3, 4, 5, 6, 7]).unwrap();
    assert!(matches!(id, CardIdentifier::Long { .. }));
    assert_eq!(id.bytes().as_slice(), &[1, 2, 3, 4, 5, 6, 7]);
}

#[test]
fn classify_unsupported_lengths() {
    assert!(classify(vec![]).is_none());
    assert!(classify(vec![1, 2, 3]).is_none());
    assert!(classify(vec![1, 2, 3, 4, 5]).is_none());
    assert!(classify(vec![1, 2, 3, 4, 5, 6]).is_none());
    assert!(classify(vec![1, 2, 3, 4, 5, 6, 7, 8]).is_none());
    assert!(classify(vec![0; 10]).is_none());
}

#[test]
fn authorized_exact_match() {
    let allow = AllowList::new(vec![short([106, 205, 135, 25])]);
    assert!(is_authorized(&short([106, 205, 135, 25]), &allow));
}

#[test]
fn unauthorized_mismatch() {
    let allow = AllowList::new(vec![short([106, 205, 135, 25])]);
    assert!(!is_authorized(&short([1, 2, 3, 4]), &allow));
    assert!(!is_authorized(&short([106, 205, 135, 24]), &allow));
    assert!(!is_authorized(&short([25, 135, 205, 106]), &allow));
}

#[test]
fn no_prefix_matching_across_forms() {
    let allow = AllowList::new(vec![short([106, 205, 135, 25])]);
    let long = classify(vec![106, 205, 135, 25, 0, 0, 0]).unwrap();
    assert!(!is_authorized(&long, &allow));
}

#[test]
fn empty_allowlist_authorizes_nothing() {
    let allow = AllowList::new(vec![]);
    assert!(!is_authorized(&short([106, 205, 135, 25]), &allow));
}

#[test]
fn any_entry_of_several_matches() {
    let allow = AllowList::new(vec![short([1, 1, 1, 1]), short([2, 2, 2, 2])]);
    assert!(is_authorized(&short([1, 1, 1, 1]), &allow));
    assert!(is_authorized(&short([2, 2, 2, 2]), &allow));
    assert!(!is_authorized(&short([3, 3, 3, 3]), &allow));
}
