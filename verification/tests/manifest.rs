use lorri::manifest::{duplicate_strings, Manifest, ServiceDescriptor};

#[test]
fn duplicate_is_equal_to_the_original() {
    let service = ServiceDescriptor {
        name: String::from("say hi"),
        program: String::from("touch"),
        args: vec![String::from("/tmp/touchit"), String::new()],
    };
    assert_eq!(service.duplicate(), service);
}

#[test]
fn duplicate_strings_keeps_order_and_repeats() {
    let strings = vec![String::from("b"), String::from("a"), String::from("b")];
    assert_eq!(duplicate_strings(&strings), strings);
    assert_eq!(duplicate_strings(&vec![]), Vec::<String>::new());
}

#[test]
fn manifest_counts_its_services() {
    let service = ServiceDescriptor {
        name: String::from("a"),
        program: String::from("/bin/echo"),
        args: vec![],
    };
    assert_eq!(Manifest { services: vec![] }.len(), 0);
    assert_eq!(Manifest { services: vec![service.clone(), service] }.len(), 2);
}
