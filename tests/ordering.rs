use std::cmp::Ordering;
use std::hash::{Hash, Hasher};
use std::ptr;

#[derive(Debug, Clone)]
struct KeyValue {
    key: &'static str,
    #[allow(dead_code)]
    value: f64,
}

impl PartialEq for KeyValue {
    fn eq(&self, other: &Self) -> bool {
        self.key == other.key
    }
}

// Eq cannot be derived: the float field is not Eq.
impl Eq for KeyValue {}

// Hash cannot be derived: the float field is not Hash.
impl Hash for KeyValue {
    fn hash<H: Hasher>(&self, state: &mut H) {
        self.key.hash(state);
    }
}

// Not derived: a derived impl would compare every field, Ord compares the key only.
impl PartialOrd for KeyValue {
    fn partial_cmp(&self, other: &Self) -> Option<Ordering> {
        Some(self.cmp(other))
    }
}

impl Ord for KeyValue {
    fn cmp(&self, other: &Self) -> Ordering {
        self.key.cmp(other.key)
    }
}

const A1: KeyValue = KeyValue { key: "A", value: 1.0 };
const A2: KeyValue = KeyValue { key: "A", value: 2.0 };
const B2: KeyValue = KeyValue { key: "B", value: 2.0 };
const B0: KeyValue = KeyValue { key: "B", value: 0.0 };

#[test]
fn sort_eq_deref() {
    assert_eq!(&A1, &A2);
}

#[test]
fn sort_eq_deref_mut() {
    let mut a1 = A1.clone();
    let mut a2 = A2.clone();
    assert_eq!(&mut a1, &mut a2);
}

#[test]
fn sort_eq_no_deref_ptr() {
    assert!(!ptr::eq(&A1, &A2));
}

#[test]
fn sort_eq_no_deref_ptr_mut() {
    let mut a1 = A1.clone();
    let mut a2 = A2.clone();
    assert!(!ptr::eq(&mut a1, &mut a2));
}

#[test]
fn sort_stable() {
    let mut a = [A2, B2, A1, B0];
    // Timsort
    a.sort();
    assert_eq!(a, [A2, A1, B2, B0]);
}

#[test]
fn sort_floats_total() {
    let mut a = [5.3_f64, 2.6, 0.0, f64::NEG_INFINITY, f64::INFINITY, -2.4e32, f64::NAN, -0.0, -f64::NAN];
    a.sort_by(f64::total_cmp);

    let last = a.len() - 1;
    assert!(a[0].is_nan() && a[0].is_sign_negative());
    assert!(a[last].is_nan() && a[last].is_sign_positive());
    assert_eq!(&a[1..last], [-f64::INFINITY, -2.4e32, -0.0, 0.0, 2.6, 5.3_f64, f64::INFINITY]);
}
