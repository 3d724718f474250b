use memo_cache::counter::Counter;

#[test]
fn iterator_demonstration() {
    let v1 = vec![1, 2, 3];

    let mut v1_iter = v1.iter();

    assert_eq!(v1_iter.next(), Some(&1));
    assert_eq!(v1_iter.next(), Some(&2));
    assert_eq!(v1_iter.next(), Some(&3));
    assert_eq!(v1_iter.next(), None);
}

#[test]
fn iterator_sum() {
    let v1 = vec![1, 2, 3];

    let v1_iter = v1.iter();

    let total: i32 = v1_iter.sum();

    assert_eq!(total, 6);
}

#[test]
fn mapping() {
    let v1: Vec<i32> = vec![1, 2, 3];

    let v2: Vec<_> = v1.iter().map(|x| x + 1).collect();

    assert_eq!(v2, vec![2, 3, 4]);
}

#[test]
fn calling_next_test() {
    let mut counter = Counter::new(0 as u32);

    assert_eq!(counter.next(), Some(1));
    assert_eq!(counter.next(), Some(2));
    println!("counter {}", counter.count);
    assert_eq!(counter.next(), Some(3));
    assert_eq!(counter.next(), Some(4));
    match counter.next() {
        Some(val) => println!("counter {}", val),
        None => println!("counter is NONE"),
    }
    assert_eq!(counter.next(), None);
}

#[test]
fn using_defualt_iterator_trait_methods() {
    // A zip-skip-map-filter pipeline written out over the counter's own
    // stepping method: pair each yielded value with the value one step
    // ahead, keep the products divisible by three, and sum them.
    let mut first = Counter::new(0 as u32);
    let mut second = Counter::new(0 as u32);
    second.next();
    let mut sum: u32 = 0;
    while let (Some(a), Some(b)) = (first.next(), second.next()) {
        let product = a * b;
        if product % 3 == 0 {
            sum += product;
        }
    }

    assert_eq!(sum, 18);
}
