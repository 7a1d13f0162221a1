use std::borrow::Cow;
use std::fmt::Debug;

use unique_pointer::{Heap, UniquePointer};

#[derive(Clone, Debug, PartialEq, PartialOrd, Eq, Ord)]
pub enum Value<'t> {
    String(Cow<'t, str>),
}
impl<'t> From<String> for Value<'t> {
    fn from(v: String) -> Value<'t> {
        Value::String(Cow::from(v))
    }
}
impl<'t> From<&'t str> for Value<'t> {
    fn from(v: &'t str) -> Value<'t> {
        Value::String(Cow::from(v))
    }
}

#[derive(Debug)]
pub struct Data<'t> {
    pub value: UniquePointer<Value<'t>>,
}
impl<'t> Clone for Data<'t> {
    fn clone(&self) -> Data<'t> {
        Data {
            value: self.value.duplicate(),
        }
    }
}

#[derive(Debug)]
pub struct LinkedList<T: Debug> {
    pub item: T,
    pub next: UniquePointer<LinkedList<T>>,
}
impl<T: Debug + Clone> Clone for LinkedList<T> {
    fn clone(&self) -> LinkedList<T> {
        LinkedList {
            item: self.item.clone(),
            next: self.next.duplicate(),
        }
    }
}
impl<T: Debug + Clone> LinkedList<T> {
    pub fn new(heap: &mut Heap<LinkedList<T>>, item: T) -> LinkedList<T> {
        LinkedList {
            item,
            next: UniquePointer::null(heap),
        }
    }

    pub fn append(&mut self, heap: &mut Heap<LinkedList<T>>, value: T) -> LinkedList<T> {
        let next = LinkedList::new(heap, value);
        self.next.write_ref(heap, &next);
        next
    }

    pub fn next<'h>(&self, heap: &'h Heap<LinkedList<T>>) -> Option<&'h LinkedList<T>> {
        self.next.as_ref(heap)
    }

    pub fn len(&self, heap: &Heap<LinkedList<T>>) -> usize {
        let mut length = 1;

        if let Some(next) = self.next(heap) {
            length += 1;
            length += next.len(heap);
        }
        length
    }
}

#[test]
fn test_linked_list() {
    let mut heap = Heap::new();
    let mut a = LinkedList::new(&mut heap, "a");
    let mut b = a.append(&mut heap, "b");
    let _c = b.append(&mut heap, "c");

    assert_eq!(a.len(&heap), 3);
}

#[derive(Debug)]
pub struct BinaryTreeNode {
    pub item: String,
    pub parent: UniquePointer<BinaryTreeNode>,
    pub left: UniquePointer<BinaryTreeNode>,
    pub right: UniquePointer<BinaryTreeNode>,
}
impl Clone for BinaryTreeNode {
    fn clone(&self) -> BinaryTreeNode {
        BinaryTreeNode {
            item: self.item.clone(),
            parent: self.parent.duplicate(),
            left: self.left.duplicate(),
            right: self.right.duplicate(),
        }
    }
}
impl PartialEq for BinaryTreeNode {
    fn eq(&self, other: &BinaryTreeNode) -> bool {
        self.item == other.item
            && self.parent.addr() == other.parent.addr()
            && self.left.addr() == other.left.addr()
            && self.right.addr() == other.right.addr()
    }
}
impl BinaryTreeNode {
    pub fn new(heap: &mut Heap<BinaryTreeNode>, item: &str) -> BinaryTreeNode {
        BinaryTreeNode {
            item: String::from(item),
            parent: UniquePointer::null(heap),
            left: UniquePointer::null(heap),
            right: UniquePointer::null(heap),
        }
    }

    pub fn value(&self) -> &str {
        &self.item
    }

    pub fn parent<'h>(&self, heap: &'h Heap<BinaryTreeNode>) -> Option<&'h str> {
        self.parent.as_ref(heap).map(|parent| parent.value())
    }

    pub fn left<'h>(&self, heap: &'h Heap<BinaryTreeNode>) -> Option<&'h str> {
        self.left.as_ref(heap).map(|left| left.value())
    }

    pub fn right<'h>(&self, heap: &'h Heap<BinaryTreeNode>) -> Option<&'h str> {
        self.right.as_ref(heap).map(|right| right.value())
    }

    pub fn rotate_left(&mut self, heap: &mut Heap<BinaryTreeNode>) {
        if self.parent.is_null() {
            if self.right.is_not_null() {
                self.parent = self.right.propagate(heap);
                self.right = UniquePointer::null(heap);
            }
        }
    }

    pub fn set_parent(&mut self, heap: &mut Heap<BinaryTreeNode>, parent: &mut BinaryTreeNode) {
        self.parent = UniquePointer::read_only(heap, parent);
    }

    pub fn set_left(&mut self, heap: &mut Heap<BinaryTreeNode>, left: &mut BinaryTreeNode) {
        left.set_parent(heap, self);
        self.left = UniquePointer::read_only(heap, left);
    }

    pub fn set_right(&mut self, heap: &mut Heap<BinaryTreeNode>, right: &mut BinaryTreeNode) {
        right.set_parent(heap, self);
        self.right = UniquePointer::read_only(heap, right);
    }
}

#[test]
fn test_binary_tree_node_partial_eq() {
    let mut heap = Heap::new();
    assert_eq!(
        BinaryTreeNode::new(&mut heap, "A"),
        BinaryTreeNode::new(&mut heap, "A")
    );
    assert_ne!(
        BinaryTreeNode::new(&mut heap, "A"),
        BinaryTreeNode::new(&mut heap, "B")
    );
}

#[test]
fn test_binary_tree_node_rotate_left() {
    let mut heap = Heap::new();
    let mut node_a = BinaryTreeNode::new(&mut heap, "A");
    let mut node_b = BinaryTreeNode::new(&mut heap, "B");
    let mut node_c = BinaryTreeNode::new(&mut heap, "C");
    node_a.set_left(&mut heap, &mut node_b);
    node_a.set_right(&mut heap, &mut node_c);

    assert_eq!(node_a.value(), "A");
    assert_eq!(node_b.value(), "B");
    assert_eq!(node_c.value(), "C");

    assert_eq!(node_a.left(&heap), Some("B"));
    assert_eq!(node_a.right(&heap), Some("C"));

    assert_eq!(node_b.left(&heap), None);
    assert_eq!(node_b.right(&heap), None);

    assert_eq!(node_c.left(&heap), None);
    assert_eq!(node_c.right(&heap), None);

    node_a.rotate_left(&mut heap);
}

#[test]
fn test_unique_pointer_clone() {
    let mut heap = Heap::new();
    let mut data = Data {
        value: UniquePointer::from_value(&mut heap, Value::from("string")),
    };
    let clone = Data {
        value: data.value.clone(&mut heap),
    };

    assert_eq!(data.value.is_null(), false);
    assert_eq!(data.value.is_allocated(), true);
    assert!(data.value.addr() > 0, "address should not be null");
    assert_eq!(data.value.is_written(), true);
    assert_eq!(data.value.inner_mut(&mut heap), &mut Value::from("string"));
    assert_eq!(data.value.read(&heap), Ok(Value::from("string")));
    assert_eq!(data.value.as_ref(&heap), Some(&Value::from("string")));
    assert_eq!(data.value.as_mut(&mut heap), Some(&mut Value::from("string")));

    assert_eq!(clone.value.is_null(), false);
    assert!(clone.value.addr() > 0, "address should not be null");
    assert_eq!(clone.value.is_written(), true);
    assert_eq!(clone.value.inner_mut(&mut heap), &mut Value::from("string"));
    assert_eq!(clone.value.read(&heap), Ok(Value::from("string")));
    assert_eq!(clone.value.as_ref(&heap), Some(&Value::from("string")));
    assert_eq!(clone.value.as_mut(&mut heap), Some(&mut Value::from("string")));

    data.value.write(&mut heap, Value::from("updated"));

    assert_eq!(data.value.is_null(), false);
    assert_eq!(data.value.is_allocated(), true);
    assert!(data.value.addr() > 0, "address should not be null");
    assert_eq!(data.value.is_written(), true);
    assert_eq!(data.value.inner_mut(&mut heap), &mut Value::from("updated"));
    assert_eq!(data.value.read(&heap), Ok(Value::from("updated")));
    assert_eq!(data.value.as_ref(&heap), Some(&Value::from("updated")));
    assert_eq!(data.value.as_mut(&mut heap), Some(&mut Value::from("updated")));

    assert_eq!(clone.value.is_null(), false);
    assert!(clone.value.addr() > 0, "address should not be null");
    assert_eq!(clone.value.is_written(), true);
    assert_eq!(clone.value.inner_mut(&mut heap), &mut Value::from("updated"));
    assert_eq!(clone.value.read(&heap), Ok(Value::from("updated")));
    assert_eq!(clone.value.as_ref(&heap), Some(&Value::from("updated")));
    assert_eq!(clone.value.as_mut(&mut heap), Some(&mut Value::from("updated")));
}

#[test]
fn test_unique_pointer_null() {
    let mut heap: Heap<Value> = Heap::new();
    let data = Data {
        value: UniquePointer::null(&mut heap),
    };

    assert_eq!(data.value.is_null(), true);
    assert_eq!(data.value.addr(), 0);
    assert_eq!(data.value.refs(&heap), 1);
    assert_eq!(data.value.is_written(), false);
    assert_eq!(data.value.is_allocated(), false);
    assert_eq!(data.value.as_ref(&heap), None);
}

#[test]
fn test_unique_pointer_write() {
    let mut heap = Heap::new();
    let mut data = Data {
        value: UniquePointer::null(&mut heap),
    };

    data.value.write(&mut heap, Value::from("string"));

    assert_eq!(data.value.is_null(), false);
    assert_eq!(data.value.is_allocated(), true);
    assert!(data.value.addr() > 0, "address should not be null");
    assert_eq!(data.value.is_written(), true);
    assert_eq!(data.value.inner_ref(&heap), &Value::from("string"));
    assert_eq!(data.value.read(&heap), Ok(Value::from("string")));
    assert_eq!(data.value.as_ref(&heap), Some(&Value::from("string")));
    assert_eq!(data.value.as_mut(&mut heap), Some(&mut Value::from("string")));
}

#[test]
fn test_unique_pointer_write_ref_mut() {
    let mut heap = Heap::new();
    let mut data = Data {
        value: UniquePointer::null(&mut heap),
    };

    data.value.write_ref_mut(&mut heap, &mut Value::from("string"));

    assert_eq!(data.value.is_null(), false);
    assert_eq!(data.value.is_allocated(), true);
    assert!(data.value.addr() > 0, "address should not be null");
    assert_eq!(data.value.is_written(), true);
    assert_eq!(data.value.inner_ref(&heap), &Value::from("string"));
    assert_eq!(data.value.read(&heap), Ok(Value::from("string")));
    assert_eq!(data.value.as_ref(&heap), Some(&Value::from("string")));
    assert_eq!(data.value.as_mut(&mut heap), Some(&mut Value::from("string")));
}

#[test]
fn test_unique_pointer_write_ref() {
    let mut heap = Heap::new();
    let mut data = Data {
        value: UniquePointer::null(&mut heap),
    };

    data.value.write_ref(&mut heap, &Value::from("string"));

    assert_eq!(data.value.is_null(), false);
    assert_eq!(data.value.is_allocated(), true);
    assert!(data.value.addr() > 0, "address should not be null");
    assert_eq!(data.value.is_written(), true);
    assert_eq!(data.value.inner_ref(&heap), &Value::from("string"));
    assert_eq!(data.value.read(&heap), Ok(Value::from("string")));
    assert_eq!(data.value.as_ref(&heap), Some(&Value::from("string")));
    assert_eq!(data.value.as_mut(&mut heap), Some(&mut Value::from("string")));
}

#[test]
fn test_unique_pointer_from_value() {
    let mut heap = Heap::new();
    let data = Data {
        value: UniquePointer::from_value(&mut heap, Value::from("string")),
    };

    assert_eq!(data.value.is_null(), false);
    assert_eq!(data.value.is_allocated(), true);
    assert!(data.value.addr() > 0, "address should not be null");
    assert_eq!(data.value.is_written(), true);
    assert_eq!(data.value.inner_ref(&heap), &Value::from("string"));
    assert_eq!(data.value.read(&heap), Ok(Value::from("string")));
    assert_eq!(data.value.as_ref(&heap), Some(&Value::from("string")));
    assert_eq!(data.value.as_mut(&mut heap), Some(&mut Value::from("string")));
}

#[test]
fn test_unique_pointer_from_ref_clone() {
    let mut heap = Heap::new();
    let data = Data {
        value: UniquePointer::from_ref(&mut heap, &Value::from("string")),
    };

    assert_eq!(data.value.is_null(), false);

    assert_eq!(data.value.is_written(), true);
    assert_eq!(data.value.is_allocated(), true);
    assert!(data.value.addr() > 0, "address should not be null");
    assert_eq!(data.value.inner_ref(&heap), &Value::from("string"));
    assert_eq!(data.value.read(&heap), Ok(Value::from("string")));
    assert_eq!(data.value.as_ref(&heap), Some(&Value::from("string")));
    assert_eq!(data.value.as_mut(&mut heap), Some(&mut Value::from("string")));
}

#[test]
fn test_unique_pointer_from_ref_copy() {
    let mut heap = Heap::new();
    let value: UniquePointer<u8> = UniquePointer::from_ref(&mut heap, &0xF1);

    assert_eq!(value.is_null(), false);
    assert_eq!(value.is_allocated(), true);
    assert!(value.addr() > 0, "address should not be null");
    assert_eq!(value.is_written(), true);
    assert_eq!(value.inner_ref(&heap), &0xF1);
    assert_eq!(value.read(&heap), Ok(0xF1));
    assert_eq!(value.as_ref(&heap), Some(&0xF1));
    assert_eq!(value.as_mut(&mut heap), Some(&mut 0xF1));
}

#[test]
fn test_unique_pointer_from_mut_clone() {
    let mut heap = Heap::new();
    let value: UniquePointer<Value> =
        UniquePointer::from_ref_mut(&mut heap, &mut Value::from("string"));

    assert_eq!(value.is_null(), false);
    assert_eq!(value.is_allocated(), true);
    assert!(value.addr() > 0, "address should not be null");
    assert_eq!(value.is_written(), true);
    assert_eq!(value.inner_ref(&heap), &Value::from("string"));

    assert_eq!(value.read(&heap), Ok(Value::from("string")));
    assert_eq!(value.as_ref(&heap), Some(&Value::from("string")));
    assert_eq!(value.as_mut(&mut heap), Some(&mut Value::from("string")));
}

#[test]
fn test_unique_pointer_inner_mut() {
    let mut heap = Heap::new();
    let data = Data {
        value: UniquePointer::from_ref_mut(&mut heap, &mut Value::from("string")),
    };

    assert_eq!(data.value.is_null(), false);
    assert_eq!(data.value.is_allocated(), true);
    assert!(data.value.addr() > 0, "address should not be null");
    assert_eq!(data.value.is_written(), true);
    assert_eq!(data.value.inner_mut(&mut heap), &mut Value::from("string"));
    assert_eq!(data.value.refs(&heap), 1);
    {
        let value = data.value.inner_mut(&mut heap);
        assert_eq!(value, &mut Value::from("string"));
    }
    assert_eq!(data.value.refs(&heap), 1);
    {
        let value = data.value.inner_ref(&heap);
        assert_eq!(value, &Value::from("string"));
        assert_eq!(data.value.refs(&heap), 1);
    }
    assert_eq!(data.value.refs(&heap), 1);

    assert_eq!(data.value.read(&heap), Ok(Value::from("string")));
    assert_eq!(data.value.as_ref(&heap), Some(&Value::from("string")));
    assert_eq!(data.value.as_mut(&mut heap), Some(&mut Value::from("string")));
}

#[test]
fn test_unique_pointer_from_ref_mut() {
    let mut heap = Heap::new();
    let data = Data {
        value: UniquePointer::from_ref_mut(&mut heap, &mut Value::from("string")),
    };

    assert_eq!(data.value.is_null(), false);
    assert_eq!(data.value.is_allocated(), true);
    assert_eq!(data.value.is_written(), true);
    assert_eq!(data.value.inner_ref(&heap), &Value::from("string"));
    assert_eq!(data.value.read(&heap), Ok(Value::from("string")));
    assert_eq!(data.value.as_ref(&heap), Some(&Value::from("string")));
    assert_eq!(data.value.as_mut(&mut heap), Some(&mut Value::from("string")));
    assert!(data.value.addr() > 0, "address should not be null");
}

#[test]
fn test_unique_pointer_from_ref() {
    let mut heap = Heap::new();
    let data = Data {
        value: UniquePointer::from_ref(&mut heap, &Value::from("string")),
    };

    assert_eq!(data.value.is_null(), false);
    assert_eq!(data.value.is_allocated(), true);
    assert!(data.value.addr() > 0, "address should not be null");
    assert_eq!(data.value.is_written(), true);
    assert_eq!(data.value.inner_ref(&heap), &Value::from("string"));
    assert_eq!(data.value.read(&heap), Ok(Value::from("string")));
    assert_eq!(data.value.as_ref(&heap), Some(&Value::from("string")));
    assert_eq!(data.value.as_mut(&mut heap), Some(&mut Value::from("string")));
}

#[test]
fn test_unique_pointer_string_slice() {
    let mut heap = Heap::new();
    let string = UniquePointer::<&str>::from_value(&mut heap, "string");
    assert_eq!(string.refs(&heap), 1);
    assert_eq!(string.read(&heap), Ok("string"));
    assert_eq!(string.refs(&heap), 1);
    assert_eq!(string.read(&heap), Ok("string"));
    assert_eq!(string.refs(&heap), 1);
}

#[test]
fn test_unique_pointer_from_ref_outer_data_structure() {
    let mut values = Heap::new();
    let data_ref = &mut Data {
        value: UniquePointer::from_value(&mut values, Value::from("string")),
    };

    assert_eq!(data_ref.value.is_null(), false);
    assert_eq!(data_ref.value.is_allocated(), true);
    assert!(data_ref.value.addr() > 0, "address should not be null");
    assert_eq!(data_ref.value.is_written(), true);
    assert_eq!(data_ref.value.inner_ref(&values), &Value::from("string"));
    assert_eq!(data_ref.value.read(&values), Ok(Value::from("string")));
    assert_eq!(data_ref.value.as_ref(&values), Some(&Value::from("string")));
    assert_eq!(data_ref.value.as_mut(&mut values), Some(&mut Value::from("string")));

    let mut datas: Heap<Data> = Heap::new();
    let data_ptr = UniquePointer::<Data>::from_ref(&mut datas, data_ref);
    let data = data_ptr.inner_ref(&datas);

    assert_eq!(data.value.is_null(), false);
    assert_eq!(data.value.is_allocated(), true);
    assert!(data.value.addr() > 0, "address should not be null");
    assert_eq!(data.value.is_written(), true);
    assert_eq!(data.value.inner_ref(&values), &Value::from("string"));
    assert_eq!(data.value.read(&values), Ok(Value::from("string")));
    assert_eq!(data.value.as_ref(&values), Some(&Value::from("string")));
    assert_eq!(data.value.as_mut(&mut values), Some(&mut Value::from("string")));
}

#[test]
fn test_unique_pointer_copy_from_ref_outer_data_structure() {
    let mut values = Heap::new();
    let data_ref = &mut Data {
        value: UniquePointer::from_value(&mut values, Value::from("string")),
    };

    assert_eq!(data_ref.value.is_null(), false);
    assert_eq!(data_ref.value.is_allocated(), true);
    assert!(data_ref.value.addr() > 0, "address should not be null");
    assert_eq!(data_ref.value.is_written(), true);
    assert_eq!(data_ref.value.inner_ref(&values), &Value::from("string"));
    assert_eq!(data_ref.value.read(&values), Ok(Value::from("string")));
    assert_eq!(data_ref.value.as_ref(&values), Some(&Value::from("string")));
    assert_eq!(data_ref.value.as_mut(&mut values), Some(&mut Value::from("string")));

    let mut datas: Heap<Data> = Heap::new();
    let data_ptr = UniquePointer::<Data>::copy_from_ref(&mut datas, data_ref, 0);

    assert!(
        data_ptr.inner_ref(&datas).value.addr() > 0,
        "address should not be null"
    );
    assert_eq!(data_ptr.inner_ref(&datas).value.is_null(), false);
    assert_eq!(data_ptr.inner_ref(&datas).value.is_allocated(), true);
    assert_eq!(data_ptr.inner_ref(&datas).value.is_written(), true);
    assert_eq!(
        data_ptr.inner_ref(&datas).value.inner_ref(&values),
        &Value::from("string")
    );
    assert_eq!(
        data_ptr.inner_ref(&datas).value.read(&values),
        Ok(Value::from("string"))
    );
    assert_eq!(
        data_ptr.inner_ref(&datas).value.as_ref(&values),
        Some(&Value::from("string"))
    );
    assert_eq!(
        data_ptr.inner_mut(&mut datas).value.as_mut(&mut values),
        Some(&mut Value::from("string"))
    );
}

#[test]
fn test_unique_pointer_copy_from_ref_deref_outer_data_structure() {
    let mut values = Heap::new();
    let data_ref = &mut Data {
        value: UniquePointer::from_value(&mut values, Value::from("string")),
    };

    assert_eq!(data_ref.value.is_null(), false);
    assert_eq!(data_ref.value.is_allocated(), true);
    assert!(data_ref.value.addr() > 0, "address should not be null");
    assert_eq!(data_ref.value.is_written(), true);
    assert_eq!(data_ref.value.inner_ref(&values), &Value::from("string"));
    assert_eq!(data_ref.value.read(&values), Ok(Value::from("string")));
    assert_eq!(data_ref.value.as_ref(&values), Some(&Value::from("string")));
    assert_eq!(data_ref.value.as_mut(&mut values), Some(&mut Value::from("string")));

    let mut datas: Heap<Data> = Heap::new();
    let data_ptr = UniquePointer::<Data>::copy_from_ref(&mut datas, data_ref, 0);
    let data = data_ptr.inner_ref(&datas);

    assert!(data.value.addr() > 0, "address should not be null");
    assert_eq!(data.value.is_null(), false);
    assert_eq!(data.value.is_allocated(), true);
    assert_eq!(data.value.is_written(), true);
    assert_eq!(data.value.inner_ref(&values), &Value::from("string"));
    assert_eq!(data.value.read(&values), Ok(Value::from("string")));
    assert_eq!(data.value.as_ref(&values), Some(&Value::from("string")));
    assert_eq!(data.value.as_mut(&mut values), Some(&mut Value::from("string")));
}

#[test]
fn test_dealloc() {
    let mut heap = Heap::new();
    let mut up = UniquePointer::from_value(&mut heap, Value::from("string"));

    assert_eq!(up.refs(&heap), 1);
    let mut up2 = up.propagate(&mut heap);
    assert_eq!(up.refs(&heap), 2);
    up2.drop_in_place(&mut heap);
    assert_eq!(up.refs(&heap), 1);
    up.propagate(&mut heap).drop_in_place(&mut heap);
    assert_eq!(up.refs(&heap), 1);
    {
        let mut propagated = up.propagate(&mut heap);
        propagated.dealloc(&mut heap, true);
        propagated.drop_in_place(&mut heap);
    }
    assert_eq!(up.refs(&heap), 0);
    up.dealloc(&mut heap, true);
    assert_eq!(up.refs(&heap), 0);
    assert_eq!(up.is_null(), true);
}
