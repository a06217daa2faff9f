use counter_program::{apply, execute, CodecError, CounterAccount, CounterInstruction};

fn counter(counter: u32) -> CounterAccount {
    CounterAccount { counter }
}

#[test]
fn increment_adds() {
    assert_eq!(apply(counter(5), CounterInstruction::Increment { amount: 3 }), counter(8));
    assert_eq!(apply(counter(0), CounterInstruction::Increment { amount: 0 }), counter(0));
    assert_eq!(
        apply(counter(u32::MAX - 1), CounterInstruction::Increment { amount: 1 }),
        counter(u32::MAX)
    );
}

#[test]
fn increment_wraps_at_the_top() {
    assert_eq!(
        apply(counter(u32::MAX), CounterInstruction::Increment { amount: 1 }),
        counter(0)
    );
    assert_eq!(
        apply(counter(u32::MAX), CounterInstruction::Increment { amount: u32::MAX }),
        counter(u32::MAX - 1)
    );
    assert_eq!(
        apply(counter(0x8000_0000), CounterInstruction::Increment { amount: 0x8000_0005 }),
        counter(5)
    );
}

#[test]
fn decrement_takes_away() {
    assert_eq!(apply(counter(9), CounterInstruction::Decrement { amount: 4 }), counter(5));
    assert_eq!(apply(counter(9), CounterInstruction::Decrement { amount: 9 }), counter(0));
    assert_eq!(apply(counter(9), CounterInstruction::Decrement { amount: 0 }), counter(9));
}

#[test]
fn decrement_stops_at_zero() {
    assert_eq!(apply(counter(2), CounterInstruction::Decrement { amount: 5 }), counter(0));
    assert_eq!(apply(counter(0), CounterInstruction::Decrement { amount: 1 }), counter(0));
    assert_eq!(
        apply(counter(0), CounterInstruction::Decrement { amount: u32::MAX }),
        counter(0)
    );
    assert_eq!(
        apply(counter(u32::MAX - 1), CounterInstruction::Decrement { amount: u32::MAX }),
        counter(0)
    );
}

#[test]
fn reset_gives_zero_and_stays_there() {
    for start in [0u32, 1, 77, u32::MAX] {
        let once = apply(counter(start), CounterInstruction::Reset);
        assert_eq!(once, counter(0));
        assert_eq!(apply(once, CounterInstruction::Reset), counter(0));
    }
}

#[test]
fn update_overwrites() {
    for start in [0u32, 1, 77, u32::MAX] {
        for value in [0u32, 42, u32::MAX] {
            assert_eq!(
                apply(counter(start), CounterInstruction::Update { value }),
                counter(value)
            );
        }
    }
}

#[test]
fn execute_rewrites_the_stored_counter() {
    let mut state = vec![5u8, 0, 0, 0, 0x11];
    assert_eq!(execute(&mut state, CounterInstruction::Increment { amount: 0x0100 }), Ok(()));
    assert_eq!(state, vec![5, 1, 0, 0, 0x11]);
    assert_eq!(execute(&mut state, CounterInstruction::Decrement { amount: 6 }), Ok(()));
    assert_eq!(state, vec![0xff, 0, 0, 0, 0x11]);
    assert_eq!(execute(&mut state, CounterInstruction::Reset), Ok(()));
    assert_eq!(state, vec![0, 0, 0, 0, 0x11]);
}

#[test]
fn execute_refuses_an_undersized_region() {
    let mut state = vec![5u8, 0, 0];
    assert_eq!(
        execute(&mut state, CounterInstruction::Reset),
        Err(CodecError::UndersizedRegion)
    );
    assert_eq!(state, vec![5, 0, 0]);
}
