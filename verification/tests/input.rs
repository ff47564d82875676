use embedded_hal::digital::v2::InputPin;
use shared_pin::SharedPin;
use std::cell::Cell;
use std::rc::Rc;

#[derive(Debug, PartialEq)]
enum Underlying {
    Floating,
}

/// An input pin that reports a programmed sequence of levels, one per call,
/// `true` for high. `None` in the sequence makes the call fail. Past the end
/// of the sequence the last level is repeated.
struct MockInput {
    levels: Vec<Option<bool>>,
    calls: Rc<Cell<usize>>,
}

impl MockInput {
    fn new(levels: Vec<Option<bool>>, calls: &Rc<Cell<usize>>) -> MockInput {
        MockInput { levels, calls: Rc::clone(calls) }
    }

    fn sense(&self) -> Result<bool, Underlying> {
        let call = self.calls.get();
        self.calls.set(call + 1);
        let at = if call < self.levels.len() { call } else { self.levels.len() - 1 };
        self.levels[at].ok_or(Underlying::Floating)
    }
}

impl InputPin for MockInput {
    type Error = Underlying;

    fn is_high(&self) -> Result<bool, Underlying> {
        self.sense()
    }

    fn is_low(&self) -> Result<bool, Underlying> {
        self.sense().map(|high| !high)
    }
}

/// A consumer that knows only the input capability.
fn sample<I: InputPin>(pin: &I) -> Vec<Option<bool>> {
    vec![pin.is_high().ok(), pin.is_low().ok(), pin.is_high().ok(), pin.is_low().ok()]
}

#[test]
fn input_sensing_follows_the_programmed_sequence() {
    let calls = Rc::new(Cell::new(0));
    let s = SharedPin::new(MockInput::new(vec![Some(true), Some(true), Some(false)], &calls));
    assert_eq!(s.is_high(), Ok(true));
    assert_eq!(s.is_low(), Ok(false));
    assert_eq!(s.is_high(), Ok(false));
    assert_eq!(calls.get(), 3);
}

#[test]
fn is_low_reports_true_when_low() {
    let calls = Rc::new(Cell::new(0));
    let s = SharedPin::new(MockInput::new(vec![Some(false)], &calls));
    assert_eq!(s.is_low(), Ok(true));
    assert_eq!(s.is_high(), Ok(false));
    assert_eq!(calls.get(), 2);
}

#[test]
fn sensing_error_is_folded_to_the_unit_error() {
    let calls = Rc::new(Cell::new(0));
    let mock = MockInput::new(vec![None, Some(true), None, Some(false)], &calls);
    assert_eq!(mock.is_high(), Err(Underlying::Floating));
    calls.set(0);
    let s = SharedPin::new(mock);
    assert_eq!(s.is_high(), Err(()));
    assert_eq!(s.is_high(), Ok(true));
    assert_eq!(s.is_low(), Err(()));
    assert_eq!(s.is_low(), Ok(true));
    assert_eq!(calls.get(), 4);
}

#[test]
fn two_sharers_sense_the_same_pin() {
    let calls = Rc::new(Cell::new(0));
    let s1 = SharedPin::new(MockInput::new(vec![Some(true), Some(false), Some(true)], &calls));
    let s2 = s1.clone();
    assert_eq!(s1.is_high(), Ok(true));
    assert_eq!(s2.is_high(), Ok(false));
    assert_eq!(s1.is_low(), Ok(false));
    assert_eq!(calls.get(), 3);
    assert_eq!(s2.handle_count(), 2);
}

#[test]
fn consumer_of_the_input_capability_accepts_a_shared_pin() {
    let levels = vec![Some(true), Some(false), None, Some(false)];
    let direct_calls = Rc::new(Cell::new(0));
    let shared_calls = Rc::new(Cell::new(0));
    let direct = MockInput::new(levels.clone(), &direct_calls);
    let shared = SharedPin::new(MockInput::new(levels, &shared_calls));
    let plain = sample(&direct);
    let through = sample(&shared);
    assert_eq!(plain, vec![Some(true), Some(true), None, Some(true)]);
    assert_eq!(through, plain);
    assert_eq!(shared_calls.get(), direct_calls.get());
    assert_eq!(shared_calls.get(), 4);
}
