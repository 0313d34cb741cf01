use blog_handlers::shortnames::{
    apply_media_short_names, extract_media_short_names, order_extractions,
    replace_media_short_names, ShortNameExtraction,
};

fn found(v: &[ShortNameExtraction]) -> Vec<(usize, String)> {
    v.iter().map(|e| (e.start, e.short_name.clone())).collect()
}

#[test]
fn references_are_found_latest_first() {
    let content = "intro @[image:cover.png] text :::app lottie anim.json end @(1_2)[video:clip]";
    let refs = extract_media_short_names(content);
    let starts: Vec<(usize, String)> = found(&refs);
    assert_eq!(
        starts,
        vec![
            (content.find("clip").unwrap(), "clip".to_string()),
            (content.find("anim.json").unwrap(), "anim.json".to_string()),
            (content.find("cover.png").unwrap(), "cover.png".to_string()),
        ]
    );
}

#[test]
fn short_names_become_usage_indices() {
    let mut content = "@[image:a] @[image:b] @[image:a]".to_string();
    let mut usage: Vec<String> = Vec::new();
    replace_media_short_names(&mut content, &mut usage);
    assert_eq!(content, "@[image:0] @[image:1] @[image:0]");
    assert_eq!(usage, vec!["a".to_string(), "b".to_string()]);
}

#[test]
fn known_names_keep_their_index_across_fields() {
    let mut usage: Vec<String> = Vec::new();
    let mut content = ":::app lottie hero.json".to_string();
    replace_media_short_names(&mut content, &mut usage);
    let mut draft = "@[image:logo] and :::app lottie hero.json".to_string();
    replace_media_short_names(&mut draft, &mut usage);
    assert_eq!(content, ":::app lottie 0");
    assert_eq!(draft, "@[image:1] and :::app lottie 0");
    assert_eq!(usage, vec!["hero.json".to_string(), "logo".to_string()]);
}

#[test]
fn byte_offsets_count_multibyte_text() {
    let mut content = "héllo wörld @[image:ünïcode.png]".to_string();
    let mut usage = vec!["other".to_string()];
    replace_media_short_names(&mut content, &mut usage);
    assert_eq!(content, "héllo wörld @[image:1]");
    assert_eq!(usage, vec!["other".to_string(), "ünïcode.png".to_string()]);
}

#[test]
fn content_without_references_is_unchanged() {
    let mut content = "plain @ text [x:y] :::app".to_string();
    let mut usage: Vec<String> = Vec::new();
    replace_media_short_names(&mut content, &mut usage);
    assert_eq!(content, "plain @ text [x:y] :::app");
    assert!(usage.is_empty());
}

#[test]
fn ordering_is_a_stable_sort_by_descending_start() {
    let refs = order_extractions(
        Some(vec![Some((2, "a".to_string())), None, Some((9, "b".to_string()))]),
        Some(vec![Some((5, "c".to_string())), Some((9, "d".to_string()))]),
    );
    assert_eq!(
        found(&refs),
        vec![(9, "b".to_string()), (9, "d".to_string()), (5, "c".to_string()), (2, "a".to_string())]
    );
    assert!(order_extractions(None, None).is_empty());
}

#[test]
fn references_off_a_character_boundary_are_left_alone() {
    let mut content = "é @[i:x]".to_string();
    let mut usage: Vec<String> = Vec::new();
    let refs = vec![ShortNameExtraction { short_name: "x".to_string(), start: 1 }];
    apply_media_short_names(&mut content, &mut usage, &refs);
    assert_eq!(content, "é @[i:x]");
    assert_eq!(usage, vec!["x".to_string()]);
}
