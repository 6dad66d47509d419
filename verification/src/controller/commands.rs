//! Commands of several characters, kept in a trie.
//!
//! A command is a run of characters without white space, and an action. The
//! node reached by the characters typed so far tells whether they are a
//! command, the start of one, or neither.
use crate::controller::actions::Action;
use vstd::prelude::*;

verus! {

/// A node of the trie: the action of the command that ends here, if one
/// does, and the nodes that longer commands go on to.
#[derive(Debug)]
pub struct CommandTrie {
    /// The ways on, one for each next character. They are kept as a list
    /// that is searched from the front: vstd knows how std's hash maps
    /// behave for keys that are integers, not for keys that are characters.
    pub children: Vec<Edge>,
    /// The action of the command that ends here.
    pub action: Option<Action>,
}

/// The way from a node to a child, by one character.
#[derive(Debug)]
pub struct Edge {
    pub key: char,
    pub node: CommandTrie,
}

/// The index of the first edge with the given character, if there is one.
pub open spec fn edge_index(edges: Seq<Edge>, c: char) -> Option<int>
    decreases edges.len(),
{
    if edges.len() == 0 {
        None
    } else {
        match edge_index(edges.drop_last(), c) {
            Some(i) => Some(i),
            None => if edges.last().key == c {
                Some(edges.len() - 1)
            } else {
                None
            },
        }
    }
}

/// What [`edge_index`] returns is the least index of an edge with the
/// character.
pub proof fn lemma_edge_index(edges: Seq<Edge>, c: char)
    ensures
        match edge_index(edges, c) {
            Some(i) => {
                &&& 0 <= i < edges.len()
                &&& edges[i].key == c
                &&& forall|j: int| 0 <= j < i ==> (#[trigger] edges[j]).key != c
            },
            None => forall|j: int| 0 <= j < edges.len() ==> (#[trigger] edges[j]).key != c,
        },
    decreases edges.len(),
{
    if edges.len() > 0 {
        lemma_edge_index(edges.drop_last(), c);
        match edge_index(edges.drop_last(), c) {
            Some(i) => {
                assert(edges.drop_last()[i] == edges[i]);
                assert forall|j: int| 0 <= j < i implies (#[trigger] edges[j]).key != c by {
                    assert(edges.drop_last()[j] == edges[j]);
                }
            },
            None => {
                assert forall|j: int| 0 <= j < edges.len() - 1 implies (#[trigger] edges[j]).key
                    != c by {
                    assert(edges.drop_last()[j] == edges[j]);
                }
            },
        }
    }
}

/// Whether a character is ASCII white space: space, tab, line feed, form
/// feed or carriage return.
pub open spec fn is_space(c: char) -> bool {
    c == ' ' || c == '\t' || c == '\n' || c == '\x0C' || c == '\r'
}

/// Whether a run of characters can be a command: it is not empty and holds
/// no white space.
pub open spec fn is_command(text: Seq<char>) -> bool {
    text.len() > 0 && forall|i: int| 0 <= i < text.len() ==> !is_space(#[trigger] text[i])
}

impl CommandTrie {
    /// The child reached by a character, if there is one.
    pub open spec fn child(self, c: char) -> Option<CommandTrie> {
        match edge_index(self.children@, c) {
            Some(i) => Some(self.children@[i].node),
            None => None,
        }
    }

    /// The node reached by a run of characters, if there is one.
    pub open spec fn node_at(self, path: Seq<char>) -> Option<CommandTrie>
        decreases path.len(),
    {
        if path.len() == 0 {
            Some(self)
        } else {
            match self.child(path[0]) {
                Some(node) => node.node_at(path.drop_first()),
                None => None,
            }
        }
    }

    /// The action of the command that a run of characters spells, if they
    /// spell one.
    pub open spec fn command(self, path: Seq<char>) -> Option<Action> {
        match self.node_at(path) {
            Some(node) => node.action,
            None => None,
        }
    }

    /// Whether the trie holds no command at all.
    pub open spec fn is_empty(self) -> bool {
        self.children@.len() == 0 && self.action is None
    }

    /// An empty trie spells no command, and has no node but its root.
    pub proof fn lemma_empty(self, path: Seq<char>)
        requires
            self.is_empty(),
        ensures
            self.command(path) is None,
            self.node_at(path) is Some <==> path.len() == 0,
    {
        if path.len() > 0 {
            assert(edge_index(self.children@, path[0]) is None);
        }
    }

    /// The first step of the way to a node.
    pub proof fn lemma_node_step(self, path: Seq<char>)
        requires
            path.len() > 0,
        ensures
            self.node_at(path) == (match self.child(path[0]) {
                Some(node) => node.node_at(path.drop_first()),
                None => None,
            }),
    {
    }

    /// The first step of the way to a node.
    pub proof fn lemma_step(self, path: Seq<char>)
        requires
            path.len() > 0,
        ensures
            self.command(path) == (match self.child(path[0]) {
                Some(node) => node.command(path.drop_first()),
                None => None,
            }),
    {
    }

    /// A command added to the trie. This is a fluent setter.
    ///
    /// The command must not be empty, must hold no white space, and must not
    /// be in the trie yet.
    pub fn add(self, command: &str, action: Action) -> (r: CommandTrie)
        requires
            is_command(command@),
            self.command(command@) is None,
        ensures
            forall|path: Seq<char>|
                #[trigger] r.command(path) == (if path == command@ {
                    Some(action)
                } else {
                    self.command(path)
                }),
            forall|path: Seq<char>|
                #[trigger] r.node_at(path) is Some <==> (self.node_at(path) is Some
                    || path.is_prefix_of(command@)),
    {
        let mut chars: Vec<char> = Vec::new();
        let n = command.unicode_len();
        let mut i: usize = 0;
        while i < n
            invariant
                i <= n,
                n == command@.len(),
                chars@ == command@.take(i as int),
            decreases n - i,
        {
            chars.push(command.get_char(i));
            proof {
                assert(command@.take(i as int + 1) =~= command@.take(i as int).push(
                    command@[i as int],
                ));
            }
            i += 1;
        }
        proof {
            assert(command@.take(n as int) =~= command@);
            assert(chars@.subrange(0, chars@.len() as int) =~= command@);
        }
        let mut trie = self;
        trie.add_recursive(&chars, 0, action);
        trie
    }

    /// The node reached by a run of characters, if there is one.
    pub fn traverse(&self, chars: &Vec<char>) -> (r: Option<&CommandTrie>)
        ensures
            match self.node_at(chars@) {
                Some(node) => r == Some(&node),
                None => r is None,
            },
    {
        let mut node = self;
        let mut i: usize = 0;
        proof {
            assert(chars@.subrange(0, chars@.len() as int) =~= chars@);
        }
        while i < chars.len()
            invariant
                i <= chars.len(),
                self.node_at(chars@) == node.node_at(chars@.subrange(i as int, chars@.len() as int)),
            decreases chars.len() - i,
        {
            let ghost rest = chars@.subrange(i as int, chars@.len() as int);
            proof {
                assert(rest[0] == chars@[i as int]);
                assert(rest.drop_first() =~= chars@.subrange(i as int + 1, chars@.len() as int));
            }
            match node.next(chars[i]) {
                Some(child) => {
                    node = child;
                },
                None => {
                    return None;
                },
            }
            i += 1;
        }
        proof {
            assert(chars@.subrange(chars@.len() as int, chars@.len() as int) =~= Seq::<
                char,
            >::empty());
        }
        Some(node)
    }

    /// The child reached by a character, if there is one.
    pub fn next(&self, c: char) -> (r: Option<&CommandTrie>)
        ensures
            match self.child(c) {
                Some(node) => r == Some(&node),
                None => r is None,
            },
    {
        let mut i: usize = 0;
        while i < self.children.len()
            invariant
                i <= self.children.len(),
                forall|j: int| 0 <= j < i ==> (#[trigger] self.children@[j]).key != c,
            decreases self.children.len() - i,
        {
            if self.children[i].key == c {
                proof {
                    lemma_edge_index(self.children@, c);
                }
                return Some(&self.children[i].node);
            }
            i += 1;
        }
        proof {
            lemma_edge_index(self.children@, c);
        }
        None
    }

    /// Whether longer commands go on from this node.
    pub fn has_children(&self) -> (r: bool)
        ensures
            r == (self.children@.len() > 0),
    {
        self.children.len() > 0
    }

    /// Whether a command ends at this node.
    pub fn has_action(&self) -> (r: bool)
        ensures
            r == (self.action is Some),
    {
        self.action.is_some()
    }

    /// The action of the command that ends at this node, if one does.
    pub fn action(&self) -> (r: Option<&Action>)
        ensures
            r is Some <==> self.action is Some,
            r matches Some(a) ==> *a == self.action->0,
    {
        match &self.action {
            Some(a) => Some(a),
            None => None,
        }
    }

    /// The index of the edge with the given character; where there is
    /// none, one to an empty node is added.
    fn edge_for(&mut self, c: char) -> (i: usize)
        ensures
            final(self).action == old(self).action,
            edge_index(final(self).children@, c) == Some(i as int),
            i < final(self).children@.len(),
            match old(self).child(c) {
                Some(node) => *final(self) == *old(self),
                None => final(self).children@[i as int].node.is_empty(),
            },
            forall|d: char| d != c ==> #[trigger] final(self).child(d) == old(self).child(d),
    {
        proof {
            lemma_edge_index(self.children@, c);
        }
        let mut i: usize = 0;
        while i < self.children.len()
            invariant
                i <= self.children.len(),
                *self == *old(self),
                forall|j: int| 0 <= j < i ==> (#[trigger] self.children@[j]).key != c,
            decreases self.children.len() - i,
        {
            if self.children[i].key == c {
                proof {
                    lemma_edge_index(self.children@, c);
                }
                return i;
            }
            i += 1;
        }
        let fresh = CommandTrie { children: Vec::new(), action: None };
        let edge = Edge { key: c, node: fresh };
        self.children.push(edge);
        proof {
            let before = old(self).children@;
            let after = self.children@;
            assert(after == before.push(edge));
            assert(after.len() == before.len() + 1);
            assert(after[i as int] == edge);
            assert forall|j: int| 0 <= j < i implies (#[trigger] after[j]).key != c by {
                assert(after[j] == before[j]);
            }
            lemma_edge_index(after, c);
            assert forall|d: char| d != c implies #[trigger] self.child(d) == old(self).child(
                d,
            ) by {
                lemma_edge_index(after, d);
                lemma_edge_index(before, d);
                match edge_index(before, d) {
                    Some(k) => {
                        assert(after[k] == before[k]);
                        assert(edge_index(after, d) == Some(k));
                    },
                    None => {
                        if edge_index(after, d) is Some {
                            let k = edge_index(after, d)->0;
                            if k < before.len() {
                                assert(after[k] == before[k]);
                            }
                        }
                    },
                }
            }
        }
        i
    }

    /// Adds the command spelled by the characters from `from` on.
    fn add_recursive(&mut self, chars: &Vec<char>, from: usize, action: Action)
        requires
            from <= chars@.len(),
            old(self).command(chars@.subrange(from as int, chars@.len() as int)) is None,
        ensures
            forall|path: Seq<char>|
                #[trigger] final(self).command(path) == (if path == chars@.subrange(
                    from as int,
                    chars@.len() as int,
                ) {
                    Some(action)
                } else {
                    old(self).command(path)
                }),
            forall|path: Seq<char>|
                #[trigger] final(self).node_at(path) is Some <==> (old(self).node_at(path) is Some
                    || path.is_prefix_of(chars@.subrange(from as int, chars@.len() as int))),
        decreases chars@.len() - from,
    {
        let ghost rest = chars@.subrange(from as int, chars@.len() as int);
        if from == chars.len() {
            self.action = Some(action);
            proof {
                assert(rest =~= Seq::<char>::empty());
                assert forall|path: Seq<char>|
                    #[trigger] self.node_at(path) is Some <==> (old(self).node_at(path) is Some
                        || path.is_prefix_of(rest)) by {
                    if path.len() == 0 {
                        assert(self.node_at(path) == Some(*self));
                        assert(old(self).node_at(path) == Some(*old(self)));
                    } else {
                        self.lemma_node_step(path);
                        old(self).lemma_node_step(path);
                    }
                }
                assert forall|path: Seq<char>|
                    #[trigger] self.command(path) == (if path == rest {
                        Some(action)
                    } else {
                        old(self).command(path)
                    }) by {
                    if path.len() == 0 {
                        assert(path =~= rest);
                    }
                }
            }
            return ;
        }
        let c = chars[from];
        let ghost tail = chars@.subrange(from as int + 1, chars@.len() as int);
        proof {
            assert(rest[0] == c);
            assert(rest.drop_first() =~= tail);
        }
        let i = self.edge_for(c);
        let ghost middle = *self;
        let ghost before = self.children@[i as int].node;
        proof {
            if old(self).child(c) is None {
                before.lemma_empty(tail);
            }
            assert(before.command(tail) is None);
        }
        let child = &mut self.children[i].node;
        child.add_recursive(chars, from + 1, action);
        proof {
            let after = self.children@[i as int].node;
            lemma_edge_index(middle.children@, c);
            assert(middle.children@[i as int].key == c);
            assert(self.children@ =~= middle.children@.update(
                i as int,
                Edge { key: c, node: after },
            ));
            assert forall|j: int| 0 <= j < i implies (#[trigger] self.children@[j]).key != c by {
                lemma_edge_index(middle.children@, c);
                assert(self.children@[j] == middle.children@[j]);
            }
            lemma_edge_index(self.children@, c);
            assert(edge_index(self.children@, c) == Some(i as int));
            assert(self.action == old(self).action);
            assert forall|path: Seq<char>|
                #[trigger] self.command(path) == (if path == rest {
                    Some(action)
                } else {
                    old(self).command(path)
                }) by {
                if path.len() == 0 {
                    assert(self.node_at(path) == Some(*self));
                    assert(old(self).node_at(path) == Some(*old(self)));
                } else if path[0] == c {
                    let shorter = path.drop_first();
                    self.lemma_step(path);
                    old(self).lemma_step(path);
                    assert(self.child(c) == Some(after));
                    assert(self.command(path) == after.command(shorter));
                    assert(after.command(shorter) == (if shorter == tail {
                        Some(action)
                    } else {
                        before.command(shorter)
                    }));
                    if shorter == tail {
                        assert(path =~= seq![c] + shorter);
                        assert(rest =~= seq![c] + tail);
                    }
                    if path == rest {
                        assert(shorter =~= tail);
                    }
                    match old(self).child(c) {
                        Some(node) => {
                            assert(middle == *old(self));
                            assert(node == before);
                        },
                        None => {
                            before.lemma_empty(shorter);
                        },
                    }
                } else {
                    let d = path[0];
                    self.lemma_step(path);
                    old(self).lemma_step(path);
                    lemma_edge_index(self.children@, d);
                    lemma_edge_index(middle.children@, d);
                    match edge_index(middle.children@, d) {
                        Some(k) => {
                            assert(self.children@[k] == middle.children@[k]);
                            assert(edge_index(self.children@, d) == Some(k));
                        },
                        None => {
                            if edge_index(self.children@, d) is Some {
                                let k = edge_index(self.children@, d)->0;
                                if k != i {
                                    assert(self.children@[k] == middle.children@[k]);
                                }
                            }
                        },
                    }
                    assert(self.child(d) == middle.child(d));
                    assert(middle.child(d) == old(self).child(d));
                }
            }
            assert forall|path: Seq<char>|
                #[trigger] self.node_at(path) is Some <==> (old(self).node_at(path) is Some
                    || path.is_prefix_of(rest)) by {
                if path.len() == 0 {
                    assert(self.node_at(path) == Some(*self));
                    assert(old(self).node_at(path) == Some(*old(self)));
                    assert(path =~= rest.subrange(0, 0));
                } else if path[0] == c {
                    let shorter = path.drop_first();
                    self.lemma_node_step(path);
                    old(self).lemma_node_step(path);
                    assert(self.child(c) == Some(after));
                    assert(after.node_at(shorter) is Some <==> (before.node_at(shorter) is Some
                        || shorter.is_prefix_of(tail)));
                    assert(path.is_prefix_of(rest) <==> shorter.is_prefix_of(tail)) by {
                        if shorter.is_prefix_of(tail) {
                            assert(path =~= rest.subrange(0, path.len() as int)) by {
                                assert forall|k: int| 0 <= k < path.len() implies path[k]
                                    == rest.subrange(0, path.len() as int)[k] by {
                                    if k > 0 {
                                        assert(path[k] == shorter[k - 1]);
                                        assert(shorter[k - 1] == tail.subrange(
                                            0,
                                            shorter.len() as int,
                                        )[k - 1]);
                                        assert(tail[k - 1] == rest[k]);
                                    }
                                }
                            }
                        }
                        if path.is_prefix_of(rest) {
                            assert(shorter =~= tail.subrange(0, shorter.len() as int)) by {
                                assert forall|k: int| 0 <= k < shorter.len() implies shorter[k]
                                    == tail.subrange(0, shorter.len() as int)[k] by {
                                    assert(shorter[k] == path[k + 1]);
                                    assert(path[k + 1] == rest.subrange(0, path.len() as int)[k
                                        + 1]);
                                    assert(tail[k] == rest[k + 1]);
                                }
                            }
                        }
                    }
                    match old(self).child(c) {
                        Some(node) => {
                            assert(middle == *old(self));
                            assert(node == before);
                        },
                        None => {
                            before.lemma_empty(shorter);
                            if shorter.len() == 0 {
                                assert(shorter =~= tail.subrange(0, 0));
                            }
                        },
                    }
                } else {
                    let d = path[0];
                    self.lemma_node_step(path);
                    old(self).lemma_node_step(path);
                    lemma_edge_index(self.children@, d);
                    lemma_edge_index(middle.children@, d);
                    match edge_index(middle.children@, d) {
                        Some(k) => {
                            assert(self.children@[k] == middle.children@[k]);
                            assert(edge_index(self.children@, d) == Some(k));
                        },
                        None => {
                            if edge_index(self.children@, d) is Some {
                                let k = edge_index(self.children@, d)->0;
                                if k != i {
                                    assert(self.children@[k] == middle.children@[k]);
                                }
                            }
                        },
                    }
                    assert(self.child(d) == middle.child(d));
                    assert(middle.child(d) == old(self).child(d));
                    if path.is_prefix_of(rest) {
                        assert(path[0] == rest.subrange(0, path.len() as int)[0]);
                    }
                }
            }
        }
    }
}

impl Default for CommandTrie {
    /// The trie without commands.
    fn default() -> (r: CommandTrie)
        ensures
            r.is_empty(),
    {
        CommandTrie { children: Vec::new(), action: None }
    }
}

} // verus!
