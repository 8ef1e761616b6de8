use mania_autosplit::pattern::{Pattern, ANY};

#[test]
fn scan_finds_lowest_occurrence() {
    let pattern = Pattern::new(vec![Some(0x8B), None, Some(0x85)]);
    let bytes = [0x00, 0x8B, 0x11, 0x85, 0x8B, 0x22, 0x85];
    assert_eq!(pattern.scan(&bytes), Some(1));
}

#[test]
fn scan_reports_absence() {
    let pattern = Pattern::new(vec![Some(0x8B), None, Some(0x85)]);
    let bytes = [0x00, 0x8B, 0x11, 0x84, 0x8B, 0x22];
    assert_eq!(pattern.scan(&bytes), None);
}

#[test]
fn scan_matches_at_both_ends_of_the_buffer() {
    let pattern = Pattern::new(vec![Some(1), Some(2)]);
    assert_eq!(pattern.scan(&[1, 2, 0, 0]), Some(0));
    assert_eq!(pattern.scan(&[0, 0, 1, 2]), Some(2));
    assert_eq!(pattern.scan(&[1, 2]), Some(0));
    assert_eq!(pattern.scan(&[0, 0, 0, 1]), None);
}

#[test]
fn scan_of_a_short_buffer_finds_nothing() {
    let pattern = Pattern::new(vec![Some(1), None, None]);
    assert_eq!(pattern.scan(&[1, 2]), None);
    assert_eq!(pattern.scan(&[]), None);
}

#[test]
fn wildcards_match_any_byte() {
    let pattern = Pattern::new(vec![None, None]);
    assert_eq!(pattern.scan(&[9, 9, 9]), Some(0));
    assert_eq!(pattern.scan(&[9]), None);
    let empty = Pattern::new(vec![]);
    assert_eq!(empty.scan(&[]), Some(0));
    assert_eq!(empty.scan(&[5, 6]), Some(0));
}

#[test]
fn scan_agrees_with_a_plain_search() {
    let cells = vec![Some(3u8), None, Some(1)];
    let pattern = Pattern::new(cells.clone());
    let mut bytes = Vec::new();
    let mut seed: u32 = 12345;
    for _ in 0..400 {
        seed = seed.wrapping_mul(1103515245).wrapping_add(12345);
        bytes.push(((seed >> 16) % 4) as u8);
    }
    for start in 0..bytes.len() {
        let window = &bytes[start..];
        let mut expected = None;
        if window.len() >= cells.len() {
            for i in 0..=window.len() - cells.len() {
                let hit = cells
                    .iter()
                    .enumerate()
                    .all(|(j, cell)| cell.map_or(true, |b| window[i + j] == b));
                if hit {
                    expected = Some(i);
                    break;
                }
            }
        }
        assert_eq!(pattern.scan(window), expected);
        if let Some(i) = expected {
            assert!(pattern.matches(window, i));
        }
    }
}

#[test]
fn matches_checks_one_index() {
    let pattern = Pattern::new(vec![Some(7), None, Some(9)]);
    let bytes = [7, 0, 9, 7, 1, 8];
    assert!(pattern.matches(&bytes, 0));
    assert!(!pattern.matches(&bytes, 1));
    assert!(!pattern.matches(&bytes, 3));
    assert!(!pattern.matches(&bytes, 4));
    assert!(!pattern.matches(&bytes, 100));
    assert!(!pattern.matches(&bytes, usize::MAX));
}

#[test]
fn codes_stand_for_bytes_and_wildcards() {
    let pattern = Pattern::from_codes(&[0x8B, ANY, 0x00, 0xFF, 0x1FF, u16::MAX]);
    assert_eq!(pattern.cells, vec![Some(0x8B), None, Some(0x00), Some(0xFF), None, None]);
    assert_eq!(pattern.len(), 6);
    assert_eq!(Pattern::from_codes(&[]).len(), 0);
}
