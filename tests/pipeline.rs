use magika::content::ContentType;
use magika::pipeline::batch_responses;
use magika::{Batcher, Error, Features, FileType, Reorder};

#[test]
fn batcher_groups_in_order_and_flushes_rest() {
    let mut batcher: Batcher<&str> = Batcher::new(2);
    let mut batches = Vec::new();
    let names = ["a", "b", "c", "d", "e"];
    let mut orders = Vec::new();
    for (i, name) in names.iter().enumerate() {
        if i == 2 {
            orders.push(batcher.take_order());
        }
        let (order, batch) = batcher.push(*name, Features(vec![i as i32]));
        orders.push(order);
        batches.extend(batch);
    }
    batches.extend(batcher.finish());
    assert_eq!(orders, vec![0, 1, 2, 3, 4, 5]);
    assert_eq!(batches.len(), 3);
    assert_eq!(batches[0].paths, vec![(0, "a"), (1, "b")]);
    assert_eq!(batches[1].paths, vec![(3, "c"), (4, "d")]);
    assert_eq!(batches[2].paths, vec![(5, "e")]);
    assert_eq!(batches[2].features.len(), 1);
    assert_eq!(batches[1].features[1].0, vec![3]);
}

#[test]
fn batch_size_does_not_change_item_sequence() {
    let items: Vec<i32> = (0..7).collect();
    let mut sequences = Vec::new();
    for size in 1..=8 {
        let mut batcher: Batcher<i32> = Batcher::new(size);
        let mut flat = Vec::new();
        for &x in &items {
            let (_, batch) = batcher.push(x, Features(vec![x]));
            if let Some(b) = batch {
                assert_eq!(b.paths.len(), size);
                flat.extend(b.paths);
            }
        }
        if let Some(b) = batcher.finish() {
            assert!(b.paths.len() < size);
            flat.extend(b.paths);
        }
        sequences.push(flat);
    }
    for s in &sequences {
        assert_eq!(s, &sequences[0]);
    }
}

#[test]
fn reorder_hands_out_in_increasing_order() {
    let mut reorder: Reorder<&str> = Reorder::new();
    assert!(reorder.is_empty());
    assert_eq!(reorder.push(2, "c"), Ok(()));
    assert_eq!(reorder.pop(), None);
    assert_eq!(reorder.push(0, "a"), Ok(()));
    assert_eq!(reorder.pop(), Some("a"));
    assert_eq!(reorder.pop(), None);
    assert_eq!(reorder.push(1, "b"), Ok(()));
    assert_eq!(reorder.drain(), vec!["b", "c"]);
    assert!(reorder.is_empty());
    assert_eq!(reorder.push(4, "e"), Ok(()));
    assert_eq!(reorder.drain(), Vec::<&str>::new());
    assert_eq!(reorder.push(3, "d"), Ok(()));
    assert_eq!(reorder.drain(), vec!["d", "e"]);
}

#[test]
fn reorder_rejects_stale_and_duplicate_positions() {
    let mut reorder: Reorder<u8> = Reorder::new();
    assert_eq!(reorder.push(0, 1), Ok(()));
    assert_eq!(reorder.push(0, 2), Err(Error::InvariantError));
    assert_eq!(reorder.pop(), Some(1));
    assert_eq!(reorder.push(0, 3), Err(Error::InvariantError));
    assert_eq!(reorder.push(usize::MAX, 3), Err(Error::InvariantError));
    assert!(reorder.is_empty());
}

#[test]
fn batch_responses_keep_order_and_fan_out_errors() {
    let paths = vec![(3usize, "a"), (5, "b")];
    let ok = batch_responses(
        paths.clone(),
        Ok(vec![FileType::Ruled(ContentType::Txt), FileType::Directory]),
    );
    assert_eq!(ok.len(), 2);
    assert_eq!((ok[0].order, ok[0].path), (3, "a"));
    assert_eq!(ok[0].result, Ok(FileType::Ruled(ContentType::Txt)));
    assert_eq!((ok[1].order, ok[1].path), (5, "b"));
    assert_eq!(ok[1].result, Ok(FileType::Directory));
    let failed = batch_responses(paths.clone(), Err(Error::RuntimeError));
    assert_eq!(failed.len(), 2);
    assert!(failed.iter().all(|r| r.result == Err(Error::RuntimeError)));
    let short = batch_responses(paths, Ok(vec![FileType::Directory]));
    assert_eq!(short[1].order, 5);
    assert!(short.iter().all(|r| r.result == Err(Error::RuntimeError)));
}
