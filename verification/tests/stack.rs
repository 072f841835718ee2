use osgood_v8::stack::Stack;

#[test]
fn stack_begins_empty() {
    let stack = Stack::new();
    assert_eq!(stack.current(), None);
    assert_eq!(stack.depth(), 0);
    assert!(!stack.in_use(0x1000));
    assert!(!stack.in_use(0));
    assert!(!stack.innermost(0, 0x1000));
}
