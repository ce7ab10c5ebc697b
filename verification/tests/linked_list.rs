use utils::linked_list::Linked;
use utils::linked_list::LinkedList;

#[test]
pub fn test() {
    println!("linked_list Tests!");
}

struct Node {
    val: i32,
    link: Option<Box<Node>>,
}

impl Linked for Node {
    fn get_link(&self) -> Option<&Box<Node>> {
        self.link.as_ref()
    }

    fn count_links(&self, count: usize) -> usize {
        match self.get_link() {
            Some(link) => link.count_links(count + 1),
            None => count,
        }
    }
}

impl LinkedList<Node> for Node {
    fn len(&self) -> usize {
        match self.link {
            Some(ref link) => link.count_links(2),
            None => 1,
        }
    }

    fn get_from(&self, depth: usize) -> &Node {
        match depth {
            0 => self,
            _ => match self.link {
                Some(ref link) => link.get_from(depth - 1),
                None => panic!("depth out of range"),
            },
        }
    }

    fn get_from_mut(&mut self, depth: usize) -> &mut Node {
        match depth {
            0 => self,
            _ => match self.link {
                Some(ref mut link) => link.get_from_mut(depth - 1),
                None => panic!("depth out of range"),
            },
        }
    }

    fn get(&self, index: usize) -> &Node {
        let len = self.len();
        assert!(index < len, "Linked List index out of range!");
        self.get_from(len - 1 - index)
    }

    fn get_mut(&mut self, index: usize) -> &mut Node {
        let len = self.len();
        assert!(index < len, "Linked List index out of range!");
        self.get_from_mut(len - 1 - index)
    }
}

fn sample_chain() -> Node {
    // The chain owner is the far end: indexing counts from the innermost
    // link outward.
    Node { val: 3, link: Some(Box::new(Node { val: 2, link: Some(Box::new(Node { val: 1, link: None })) })) }
}

#[test]
fn linked_len_and_get() {
    let chain = sample_chain();
    assert_eq!(chain.len(), 3);
    assert_eq!(chain.get(0).val, 1);
    assert_eq!(chain.get(1).val, 2);
    assert_eq!(chain.get(2).val, 3);
}

#[test]
fn linked_get_mut() {
    let mut chain = sample_chain();
    chain.get_mut(0).val = 10;
    assert_eq!(chain.get(0).val, 10);
    assert_eq!(chain.get(2).val, 3);
}

#[test]
fn linked_iter_and_as_vec() {
    let chain = sample_chain();
    let mut items = chain.iter();
    assert_eq!(items.next().unwrap().val, 1);
    assert_eq!(items.next().unwrap().val, 2);
    assert_eq!(items.next().unwrap().val, 3);
    assert!(items.next().is_none());
    let v = chain.as_vec();
    let vals: Vec<i32> = v.iter().map(|n| n.val).collect();
    assert_eq!(vals, vec![1, 2, 3]);
}

#[test]
fn linked_count_links() {
    let chain = sample_chain();
    assert_eq!(chain.count_links(0), 2);
}
