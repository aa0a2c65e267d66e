use dash89::topics::TopicSet;
use dash89::ui::fuzzy::{rank_items, FuzzySearch, Matcher};

fn names(list: &[&str]) -> Vec<String> {
    list.iter().map(|name| name.to_string()).collect()
}

fn topic_set(list: &[&str]) -> TopicSet {
    let mut topics = TopicSet::new();
    for name in list {
        topics.insert(name.to_string());
    }
    topics
}

#[test]
fn only_matching_items_are_listed() {
    let items = names(&["axbycz", "abx", "abc", "xyz"]);
    let matches = Matcher::new().match_items("abc", &items);
    let found: Vec<&str> = matches.iter().map(|m| m.1.as_str()).collect();
    assert_eq!(found.len(), 2);
    assert!(found.contains(&"axbycz"));
    assert!(found.contains(&"abc"));
}

#[test]
fn matches_are_listed_best_first() {
    let items = names(&["/robot/speed", "/arm/angle", "/speed", "/drive/speed_limit", "/s/p/e/e/d"]);
    let matches = Matcher::new().match_items("speed", &items);
    let mut found: Vec<&str> = matches.iter().map(|m| m.1.as_str()).collect();
    found.sort();
    assert_eq!(
        found,
        vec!["/drive/speed_limit", "/robot/speed", "/s/p/e/e/d", "/speed"]
    );
    for pair in matches.windows(2) {
        assert!(pair[0].0 >= pair[1].0);
    }
}

#[test]
fn a_match_has_the_letters_of_the_query_in_order() {
    let items = names(&["abcde", "edcba", "a-c-e", "ace", "ac"]);
    let matches = Matcher::new().match_items("ace", &items);
    let mut found: Vec<&str> = matches.iter().map(|m| m.1.as_str()).collect();
    found.sort();
    assert_eq!(found, vec!["a-c-e", "abcde", "ace"]);
    assert!(Matcher::new().match_items("aec", &items).is_empty());
}

#[test]
fn small_letters_in_the_query_match_capitals() {
    let items = names(&["ABC", "xAyBzC", "abc", "ab"]);
    let matches = Matcher::new().match_items("abc", &items);
    let mut found: Vec<&str> = matches.iter().map(|m| m.1.as_str()).collect();
    found.sort();
    assert_eq!(found, vec!["ABC", "abc", "xAyBzC"]);
}

#[test]
fn a_capital_in_the_query_makes_the_search_exact() {
    let items = names(&["abc", "AbC", "ABC", "xAxbxCx"]);
    let matches = Matcher::new().match_items("AbC", &items);
    let mut found: Vec<&str> = matches.iter().map(|m| m.1.as_str()).collect();
    found.sort();
    assert_eq!(found, vec!["AbC", "xAxbxCx"]);
}

#[test]
fn only_the_letters_a_to_z_have_capitals() {
    let items = names(&["É", "é", "Ü"]);
    let matches = Matcher::new().match_items("é", &items);
    let found: Vec<&str> = matches.iter().map(|m| m.1.as_str()).collect();
    assert_eq!(found, vec!["é"]);
    let matches = Matcher::new().match_items("É", &items);
    let found: Vec<&str> = matches.iter().map(|m| m.1.as_str()).collect();
    assert_eq!(found, vec!["É"]);
    let items = names(&["@", "`", "[", "{"]);
    assert_eq!(Matcher::new().match_items("`", &items).len(), 1);
    assert_eq!(Matcher::new().match_items("{", &items).len(), 1);
}

#[test]
fn an_empty_query_lists_every_item_with_no_score() {
    let items = names(&["/b", "/a", "", "/c"]);
    let matches = Matcher::new().match_items("", &items);
    let expected: Vec<(i64, &String)> = items.iter().map(|item| (0, item)).collect();
    assert_eq!(matches, expected);
}

#[test]
fn what_is_listed_does_not_depend_on_earlier_searches() {
    let items = names(&["aab", "a_b", "b", "ba"]);
    let matcher = Matcher::new();
    let first: Vec<String> = matcher
        .match_items("aab", &items)
        .iter()
        .map(|m| m.1.clone())
        .collect();
    matcher.match_items("b", &items);
    matcher.match_items("a_b", &items);
    let again: Vec<String> = matcher
        .match_items("aab", &items)
        .iter()
        .map(|m| m.1.clone())
        .collect();
    assert_eq!(first, vec!["aab".to_string()]);
    assert_eq!(again, first);
}

#[test]
fn given_scores_rank_the_items() {
    let items = names(&["/a", "/b", "/c", "/d", "/e"]);
    let scores = vec![Some(5), None, Some(9), Some(5), Some(-1)];
    let matches = rank_items(&scores, &items);
    assert_eq!(
        matches,
        vec![(9, &items[2]), (5, &items[0]), (5, &items[3]), (-1, &items[4])]
    );
}

#[test]
fn items_without_a_score_are_not_ranked() {
    let items = names(&["/a", "/b"]);
    assert!(rank_items(&vec![None, None], &items).is_empty());
    assert!(rank_items(&vec![], &[]).is_empty());
    assert_eq!(
        rank_items(&vec![Some(i64::MIN), Some(i64::MAX)], &items),
        vec![(i64::MAX, &items[1]), (i64::MIN, &items[0])]
    );
}

#[test]
fn equal_matches_keep_their_order() {
    let items = names(&["ab", "ab", "xab", "ab", "a-b", "ab"]);
    let matches = Matcher::new().match_items("ab", &items);
    assert_eq!(matches.len(), 6);
    let places: Vec<usize> = matches
        .iter()
        .map(|m| items.iter().position(|item| std::ptr::eq(item, m.1)).unwrap())
        .collect();
    for i in 0..matches.len() {
        for j in i + 1..matches.len() {
            assert!(matches[i].0 >= matches[j].0);
            if matches[i].0 == matches[j].0 {
                assert!(places[i] < places[j]);
            }
        }
    }
}

#[test]
fn no_item_gives_no_match() {
    let matches = Matcher::new().match_items("a", &[]);
    assert!(matches.is_empty());
    let items = names(&["b"]);
    assert!(Matcher::new().match_items("a", &items).is_empty());
}

#[test]
fn a_new_search_is_empty() {
    let search = FuzzySearch::new();
    assert_eq!(search.input, "");
    assert!(search.matches.is_empty());
    assert_eq!(search.selected_index, 0);
    assert_eq!(search.list_selected, Some(0));
    assert_eq!(search.get_selected(), None);
}

#[test]
fn an_empty_search_shows_every_topic_in_order() {
    let mut search = FuzzySearch::new();
    search.update_matches(&topic_set(&["/b", "/a", "/c"]));
    assert_eq!(search.matches, names(&["/a", "/b", "/c"]));
    assert_eq!(search.selected_index, 0);
    assert_eq!(search.list_selected, Some(0));
    assert_eq!(search.get_selected(), Some(&"/a".to_string()));
}

#[test]
fn a_search_shows_what_matches() {
    let mut search = FuzzySearch::new();
    search.input = "spd".to_string();
    search.update_matches(&topic_set(&["/arm/angle", "/speed", "/robot/speed"]));
    assert_eq!(search.matches.len(), 2);
    assert!(search.matches.contains(&"/speed".to_string()));
    assert!(search.matches.contains(&"/robot/speed".to_string()));
    assert_eq!(search.input, "spd");
}

#[test]
fn the_choice_stays_within_the_matches() {
    let mut search = FuzzySearch::new();
    search.update_matches(&topic_set(&["/a", "/b", "/c"]));
    search.selected_index = 2;
    search.update_matches(&topic_set(&["/a", "/b"]));
    assert_eq!(search.selected_index, 1);
    assert_eq!(search.list_selected, Some(1));
    search.update_matches(&TopicSet::new());
    assert_eq!(search.selected_index, 0);
    assert_eq!(search.list_selected, None);
    assert_eq!(search.get_selected(), None);
}

#[test]
fn the_choice_moves_and_wraps() {
    let mut search = FuzzySearch::new();
    search.update_matches(&topic_set(&["/a", "/b", "/c"]));
    search.move_selection(1);
    assert_eq!(search.selected_index, 1);
    search.move_selection(1);
    assert_eq!(search.selected_index, 2);
    search.move_selection(1);
    assert_eq!(search.selected_index, 0);
    search.move_selection(-1);
    assert_eq!(search.selected_index, 2);
    assert_eq!(search.list_selected, Some(2));
    search.move_selection(-2);
    assert_eq!(search.selected_index, 0);
    search.move_selection(5);
    assert_eq!(search.selected_index, 2);
    search.move_selection(-1);
    assert_eq!(search.selected_index, 1);
    assert_eq!(search.get_selected(), Some(&"/b".to_string()));
}

#[test]
fn a_step_back_from_the_first_match_leads_to_the_last() {
    let mut search = FuzzySearch::new();
    search.update_matches(&topic_set(&["/a", "/b", "/c"]));
    search.move_selection(-7);
    assert_eq!(search.selected_index, 2);
}

#[test]
fn nothing_moves_without_matches() {
    let mut search = FuzzySearch::new();
    search.move_selection(1);
    assert_eq!(search.selected_index, 0);
    assert_eq!(search.list_selected, Some(0));
    search.move_selection(-1);
    assert_eq!(search.selected_index, 0);
}

#[test]
fn a_far_step_forward_does_not_overflow() {
    let mut search = FuzzySearch::new();
    search.update_matches(&topic_set(&["/a", "/b", "/c"]));
    search.selected_index = 2;
    search.move_selection(isize::MAX);
    let expected = ((2u128 + isize::MAX as u128) % 3) as usize;
    assert_eq!(search.selected_index, expected);
}
