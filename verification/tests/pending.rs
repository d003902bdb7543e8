use agmawrite::pending::{Count, Pending, Prefix, MAX_COUNT};
use Operation::{Arm, Consume, Digit};
use Prefix::{G, Z};

fn count(value: u32) -> Count {
    Count::new(value).expect("test counts are non-zero")
}

#[test]
fn count_projections_follow_the_transition_table() {
    let cases = [
        ("idle", Pending::Idle, 0, 1, 0),
        ("count", Pending::Count(count(3)), 3, 3, 3),
        (
            "uncounted prefix",
            Pending::Prefix {
                prefix: Prefix::G,
                count: None,
            },
            0,
            1,
            0,
        ),
        (
            "counted prefix",
            Pending::Prefix {
                prefix: Prefix::Z,
                count: Some(count(5)),
            },
            5,
            5,
            5,
        ),
    ];

    for (name, pending, badge, motion, jump) in cases {
        assert_eq!(pending.pending_count(), badge, "{name}: badge");
        assert_eq!(pending.motion_count(), motion, "{name}: motion");
        assert_eq!(pending.jump_count(), jump, "{name}: jump");
    }
}

#[derive(Debug, Clone, Copy)]
enum Operation {
    Digit(u32),
    Arm(Prefix),
    Consume,
}

fn apply(operations: &[Operation]) -> Pending {
    let mut pending = Pending::Idle;
    for operation in operations {
        match operation {
            Operation::Digit(digit) => pending.push_digit(*digit),
            Operation::Arm(prefix) => pending.arm(*prefix),
            Operation::Consume => pending.consume(),
        }
    }
    pending
}

#[test]
fn sequence_operations_follow_the_transition_table() {
    let cases: &[(&str, &[Operation], Pending)] = &[
        ("lone zero", &[Digit(0)], Pending::Idle),
        ("single digit", &[Digit(3)], Pending::Count(count(3))),
        (
            "zero extends a count",
            &[Digit(1), Digit(0)],
            Pending::Count(count(10)),
        ),
        (
            "count saturates",
            &[Digit(9), Digit(9), Digit(9), Digit(9), Digit(9), Digit(9)],
            Pending::Count(count(MAX_COUNT)),
        ),
        (
            "g preserves count",
            &[Digit(3), Arm(G)],
            Pending::Prefix {
                prefix: G,
                count: Some(count(3)),
            },
        ),
        (
            "z preserves count",
            &[Digit(4), Arm(Z)],
            Pending::Prefix {
                prefix: Z,
                count: Some(count(4)),
            },
        ),
        (
            "g is replaced by z",
            &[Arm(G), Arm(Z)],
            Pending::Prefix {
                prefix: Z,
                count: None,
            },
        ),
        (
            "z is replaced by g",
            &[Arm(Z), Arm(G)],
            Pending::Prefix {
                prefix: G,
                count: None,
            },
        ),
        (
            "digit cancels prefix",
            &[Arm(G), Digit(3)],
            Pending::Count(count(3)),
        ),
        (
            "digit continues count after prefix",
            &[Digit(3), Arm(Z), Digit(0)],
            Pending::Count(count(30)),
        ),
        (
            "zero cancels uncounted prefix",
            &[Arm(Z), Digit(0)],
            Pending::Idle,
        ),
        (
            "consumption clears count and prefix",
            &[Digit(3), Arm(G), Consume],
            Pending::Idle,
        ),
    ];

    for (name, operations, expected) in cases {
        assert_eq!(apply(operations), *expected, "{name}");
    }
}

#[test]
fn zero_count_cannot_be_constructed_through_the_module_api() {
    assert_eq!(Count::new(0), None);
    assert_eq!(apply(&[Operation::Digit(0)]), Pending::Idle);
    assert_eq!(
        apply(&[Operation::Arm(Prefix::G), Operation::Digit(0)]),
        Pending::Idle
    );
}

#[test]
fn counts_clamp_at_the_maximum() {
    assert_eq!(count(MAX_COUNT + 1).get(), MAX_COUNT);
    assert_eq!(count(7).push_digit(2).get(), 72);
    assert_eq!(count(MAX_COUNT).push_digit(9).get(), MAX_COUNT);
}
