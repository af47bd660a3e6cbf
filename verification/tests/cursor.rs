use vec_cycle::VecCycle;

#[test]
fn new_cycle_starts_at_the_front() {
    let cycle = VecCycle::new(vec![7u16, 8, 9]);
    assert_eq!(cycle.index(), 0);
    assert_eq!(cycle.len(), 3);
}

#[test]
fn restart_goes_back_to_the_first_element() {
    let elements = vec!['a', 'b', 'c', 'd'];
    let mut cycle = VecCycle::new(elements.clone());
    cycle.next();
    cycle.next();
    cycle.next();
    cycle.restart();
    assert_eq!(cycle.index(), 0);
    for step in 0..9 {
        assert_eq!(cycle.next(), Some(elements[step % 4]));
    }
}

#[test]
fn set_index_chooses_the_next_element() {
    let elements = vec![100u32, 200, 300];
    for k in 0..3 {
        let mut cycle = VecCycle::new(elements.clone());
        cycle.set_index(k);
        assert_eq!(cycle.index(), k);
        assert_eq!(cycle.next(), Some(elements[k]));
        assert_eq!(cycle.index(), (k + 1) % 3);
    }
}

#[test]
fn set_index_on_last_element_wraps_to_front() {
    let mut cycle = VecCycle::new(vec!['x', 'y', 'z']);
    cycle.set_index(2);
    assert_eq!(cycle.next(), Some('z'));
    assert_eq!(cycle.index(), 0);
    assert_eq!(cycle.next(), Some('x'));
}

#[test]
fn index_follows_production() {
    let mut cycle = VecCycle::new(vec![0u8; 3]);
    let mut places = Vec::new();
    for _ in 0..7 {
        places.push(cycle.index());
        cycle.next();
    }
    assert_eq!(places, vec![0, 1, 2, 0, 1, 2, 0]);
}

#[test]
fn index_is_reduced_after_the_vector_shrinks() {
    let mut cycle = VecCycle::new(vec![1u8, 2, 3, 4, 5]);
    cycle.set_index(4);
    cycle.truncate(3);
    assert_eq!(cycle.index(), 1);
    assert_eq!(cycle.next(), Some(2));
    assert_eq!(cycle.index(), 2);
}

#[test]
fn cursor_is_not_clamped_when_the_vector_shrinks() {
    let mut cycle = VecCycle::new(vec![1u8, 2, 3, 4, 5]);
    cycle.set_index(4);
    cycle.truncate(2);
    cycle.push(30);
    cycle.push(40);
    cycle.push(50);
    assert_eq!(cycle.index(), 4);
    assert_eq!(cycle.next(), Some(50));
    assert_eq!(cycle.next(), Some(1));
}

#[test]
fn cursor_survives_an_empty_spell() {
    let mut cycle = VecCycle::new(vec!['a', 'b', 'c']);
    cycle.set_index(2);
    cycle.clear();
    assert_eq!(cycle.next(), None);
    assert_eq!(cycle.next(), None);
    cycle.push('k');
    cycle.push('l');
    cycle.push('m');
    assert_eq!(cycle.next(), Some('m'));
    assert_eq!(cycle.next(), Some('k'));
}

#[test]
fn restart_after_shrinking_reads_the_front() {
    let mut cycle = VecCycle::new(vec![9u8, 8, 7]);
    cycle.set_index(2);
    cycle.pop();
    cycle.pop();
    cycle.restart();
    assert_eq!(cycle.index(), 0);
    assert_eq!(cycle.next(), Some(9));
    assert_eq!(cycle.next(), Some(9));
}
