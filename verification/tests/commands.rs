use tallysheet::controller::actions::Action;
use tallysheet::controller::commands::CommandTrie;

fn chars(text: &str) -> Vec<char> {
    text.chars().collect()
}

fn sample() -> CommandTrie {
    CommandTrie::default()
        .add("q", Action::Quit)
        .add("gg", Action::FirstRow)
        .add("G", Action::LastRow)
        .add("<C-d>", Action::HalfDown)
        .add("<C-u>", Action::HalfUp)
        .add("gd", Action::DeleteRow)
}

#[test]
fn an_empty_trie_knows_no_command() {
    let trie = CommandTrie::default();
    assert!(!trie.has_children());
    assert!(!trie.has_action());
    assert!(trie.action().is_none());
    assert!(trie.next('q').is_none());
    assert!(trie.traverse(&chars("q")).is_none());
    let root = trie.traverse(&chars("")).unwrap();
    assert!(!root.has_children());
}

#[test]
fn commands_are_found_by_their_characters() {
    let trie = sample();
    assert_eq!(trie.traverse(&chars("q")).unwrap().action(), Some(&Action::Quit));
    assert_eq!(trie.traverse(&chars("gg")).unwrap().action(), Some(&Action::FirstRow));
    assert_eq!(trie.traverse(&chars("gd")).unwrap().action(), Some(&Action::DeleteRow));
    assert_eq!(trie.traverse(&chars("G")).unwrap().action(), Some(&Action::LastRow));
    assert_eq!(trie.traverse(&chars("<C-d>")).unwrap().action(), Some(&Action::HalfDown));
    assert_eq!(trie.traverse(&chars("<C-u>")).unwrap().action(), Some(&Action::HalfUp));
}

#[test]
fn the_start_of_a_command_is_a_node_without_action() {
    let trie = sample();
    let g = trie.traverse(&chars("g")).unwrap();
    assert!(g.has_children());
    assert!(!g.has_action());
    assert!(g.action().is_none());
    let token = trie.traverse(&chars("<C-")).unwrap();
    assert!(token.has_children());
    assert!(token.action().is_none());
    let done = trie.traverse(&chars("gg")).unwrap();
    assert!(!done.has_children());
    assert!(done.has_action());
}

#[test]
fn what_is_no_command_leads_nowhere() {
    let trie = sample();
    assert!(trie.traverse(&chars("x")).is_none());
    assert!(trie.traverse(&chars("gx")).is_none());
    assert!(trie.traverse(&chars("ggg")).is_none());
    assert!(trie.traverse(&chars("<C-x>")).is_none());
    assert!(trie.traverse(&chars("Q")).is_none());
}

#[test]
fn next_goes_one_character_at_a_time() {
    let trie = sample();
    let g = trie.next('g').unwrap();
    assert_eq!(g.next('g').unwrap().action(), Some(&Action::FirstRow));
    assert_eq!(g.next('d').unwrap().action(), Some(&Action::DeleteRow));
    assert!(g.next('x').is_none());
    assert!(trie.next('z').is_none());
    assert!(trie.has_children());
    assert!(trie.action().is_none());
}

#[test]
fn a_command_can_go_on_from_another() {
    let trie = CommandTrie::default().add("d", Action::DeleteRow).add("dd", Action::Yank);
    let d = trie.traverse(&chars("d")).unwrap();
    assert_eq!(d.action(), Some(&Action::DeleteRow));
    assert!(d.has_children());
    assert_eq!(trie.traverse(&chars("dd")).unwrap().action(), Some(&Action::Yank));
}

#[test]
fn characters_beyond_ascii_are_one_step_each() {
    let trie = CommandTrie::default().add("é→x", Action::Help);
    assert!(trie.traverse(&chars("é")).unwrap().has_children());
    assert_eq!(trie.traverse(&chars("é→x")).unwrap().action(), Some(&Action::Help));
    assert!(trie.traverse(&chars("e")).is_none());
}
