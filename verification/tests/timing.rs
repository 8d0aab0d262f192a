use tephrite_rs::timing::{RenderScheduleTiming, RenderSubAppTiming, SLOW_GAP_NANOS};

const MS: u64 = 1_000_000;

#[test]
fn only_slow_gaps_are_reported() {
    let mut t = RenderScheduleTiming::new(2);
    let (first, gap) = t.mark("First", 0);
    assert!(first.is_none() && gap.is_none());
    let (first, gap) = t.mark("PreUpdate", 5 * MS);
    assert!(first.is_none() && gap.is_none());
    let (first, gap) = t.mark("Update", 25 * MS);
    assert!(first.is_none());
    let gap = gap.unwrap();
    assert_eq!((gap.from, gap.to, gap.elapsed_nanos), ("PreUpdate", "Update", 20 * MS));
    let (first, gap) = t.mark("First", 40 * MS);
    assert_eq!(first, Some(40 * MS));
    assert!(gap.is_none());
    let (first, _) = t.mark("First", 40 * MS + SLOW_GAP_NANOS - 1);
    assert!(first.is_none());
    assert_eq!(t.last_first, Some(40 * MS + SLOW_GAP_NANOS - 1));
}

#[test]
fn clocks_that_go_back_count_as_no_time() {
    let mut t = RenderSubAppTiming::new(0, 77);
    assert!(t.mark("RenderFirst", 100 * MS).is_none());
    assert!(t.mark("Extract", 10 * MS).is_none());
    let gap = t.mark("Render", 30 * MS).unwrap();
    assert_eq!((gap.from, gap.to, gap.elapsed_nanos), ("Extract", "Render", 20 * MS));
    assert_eq!(t.pid, 77);
}
