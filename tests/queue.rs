use downloader::queue::{Task, WorkQueue};

#[test]
fn drain_returns_every_task_once() {
    let urls: Vec<String> = (0..1000).map(|i| format!("http://example.com/f{}", i)).collect();
    let paths: Vec<String> = (0..1000).map(|i| format!("downloads/f{}", i)).collect();
    let mut q = WorkQueue::from_pairs(&urls, &paths);
    assert_eq!(q.len(), 1000);
    let mut seen = vec![false; 1000];
    let mut count = 0;
    while let Some(t) = q.try_pop() {
        let i = t.id as usize;
        assert!(!seen[i]);
        seen[i] = true;
        assert_eq!(t.url, urls[i]);
        assert_eq!(t.path, paths[i]);
        count += 1;
    }
    assert_eq!(count, 1000);
    assert!(seen.iter().all(|s| *s));
    assert!(q.try_pop().is_none());
    assert!(q.try_pop().is_none());
}

#[test]
fn pops_in_push_order() {
    let mut q = WorkQueue::new();
    assert!(q.try_pop().is_none());
    q.push(Task { path: String::from("first.bin"), url: String::from("http://h/first.bin"), id: 1 });
    q.push(Task { path: String::from("second.bin"), url: String::from("http://h/second.bin"), id: 2 });
    assert_eq!(q.try_pop().unwrap().id, 1);
    assert_eq!(q.try_pop().unwrap().id, 2);
    assert!(q.try_pop().is_none());
    assert_eq!(q.len(), 0);
}

#[test]
fn empty_lists_make_an_empty_queue() {
    let mut q = WorkQueue::from_pairs(&Vec::new(), &Vec::new());
    assert_eq!(q.len(), 0);
    assert!(q.try_pop().is_none());
}

#[test]
fn drain_hands_out_all_tasks_in_order() {
    let urls: Vec<String> = (0..5).map(|i| format!("src{}", i)).collect();
    let paths: Vec<String> = (0..5).map(|i| format!("dest{}", i)).collect();
    let mut q = WorkQueue::from_pairs(&urls, &paths);
    let all = q.drain();
    let ids: Vec<usize> = all.iter().map(|t| t.id).collect();
    assert_eq!(ids, vec![0, 1, 2, 3, 4]);
    assert_eq!(all[3].url, "src3");
    assert_eq!(all[3].path, "dest3");
    assert_eq!(q.len(), 0);
    assert!(q.try_pop().is_none());
    assert!(q.drain().is_empty());
}

#[test]
fn ids_are_distinct_and_match_positions() {
    let urls: Vec<String> = (0..50).map(|i| format!("src{}", i)).collect();
    let paths: Vec<String> = (0..50).map(|i| format!("dest{}", i)).collect();
    let mut q = WorkQueue::from_pairs(&urls, &paths);
    let ids: Vec<usize> = q.drain().iter().map(|t| t.id).collect();
    let mut sorted = ids.clone();
    sorted.sort();
    sorted.dedup();
    assert_eq!(sorted.len(), 50);
    assert_eq!(ids, (0..50).collect::<Vec<usize>>());
}
