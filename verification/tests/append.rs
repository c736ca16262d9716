use diy_itermut::append::{push_to_each, push_to_each_matching};

fn owned(items: &[&str]) -> Vec<String> {
    items.iter().map(|s| String::from(*s)).collect()
}

#[test]
fn push_to_each_appends_in_place() {
    let mut source = owned(&["a", "b", "c"]);
    push_to_each(&mut source, '!');
    assert_eq!(source, owned(&["a!", "b!", "c!"]));
}

#[test]
fn push_to_each_matching_appends_in_place() {
    let mut source = owned(&["a", "b", "c"]);
    push_to_each_matching(&mut source, '!');
    assert_eq!(source, owned(&["a!", "b!", "c!"]));
}

#[test]
fn one_pass_of_each_appends_twice() {
    let mut source = owned(&["yjsp", "114514", "sakanaction"]);
    push_to_each(&mut source, '!');
    assert_eq!(source, owned(&["yjsp!", "114514!", "sakanaction!"]));
    push_to_each_matching(&mut source, '!');
    assert_eq!(source, owned(&["yjsp!!", "114514!!", "sakanaction!!"]));
}

#[test]
fn push_to_each_on_nothing() {
    let mut source: Vec<String> = Vec::new();
    push_to_each(&mut source, '!');
    push_to_each_matching(&mut source, '?');
    assert!(source.is_empty());
}

#[test]
fn push_to_each_on_one_string() {
    let mut source = owned(&["x"]);
    push_to_each(&mut source, '!');
    assert_eq!(source, owned(&["x!"]));
    push_to_each_matching(&mut source, '?');
    assert_eq!(source, owned(&["x!?"]));
}

#[test]
fn push_to_each_keeps_wide_characters_whole() {
    let mut source = owned(&["", "é"]);
    push_to_each(&mut source, 'ß');
    assert_eq!(source, owned(&["ß", "éß"]));
}
