use sandlot::boxed::Box;
use sandlot::error::Error;

#[test]
fn box_gives_access_to_contents() {
    let mut b = Box::new(41u32);
    assert_eq!(*b.as_ptr(), 41);
    *b.as_mut_ptr() += 1;
    assert_eq!(*b, 42);
    *b += 1;
    assert_eq!(*b.as_ref(), 43);
    assert_eq!(b.into_inner(), 43);
}

#[test]
fn boxes_compare_by_contents() {
    assert!(Box::new(1) == Box::new(1));
    assert!(Box::new(1) < Box::new(2));
}

#[test]
fn boxed_slice_keeps_elements() {
    let b = Box::<[u8]>::from_vec(vec![1, 2, 3]);
    assert_eq!(b.len(), 3);
    assert_eq!(&*b, &[1, 2, 3][..]);
}

#[test]
fn into_iter_yields_each_element_once_in_order() {
    let b = Box::<[String]>::from_vec(vec!["a".to_string(), "b".to_string(), "c".to_string()]);
    let mut it = b.into_iter();
    assert_eq!(it.size_hint(), (3, Some(3)));
    assert_eq!(it.next().as_deref(), Some("a"));
    assert_eq!(it.size_hint(), (2, Some(2)));
    assert_eq!(it.next().as_deref(), Some("b"));
    assert_eq!(it.next().as_deref(), Some("c"));
    assert_eq!(it.size_hint(), (0, Some(0)));
    assert_eq!(it.next(), None);
    assert_eq!(it.next(), None);
}

#[test]
fn into_iter_of_empty_slice_is_done() {
    let b = Box::<[u8]>::from_vec(Vec::new());
    assert_eq!(b.len(), 0);
    let mut it = b.into_iter();
    assert_eq!(it.size_hint(), (0, Some(0)));
    assert_eq!(it.next(), None);
}

#[test]
fn error_keeps_its_message() {
    let e = Error::new("Invalid renderer".to_string());
    assert_eq!(e.as_str(), "Invalid renderer");
    let empty = Error::new(String::new());
    assert_eq!(empty.as_str(), "");
}

#[test]
fn borrow_gives_the_contents() {
    let b = Box::new(String::from("sdl"));
    let r: &String = std::borrow::Borrow::<String>::borrow(&b);
    assert_eq!(r, "sdl");
}
