use gas_monitor::{
    Error, GasMonitorError, Instruction, InterpreterMonitor, Middleware, MiddlewareEvent,
};

type Lookup = fn(usize) -> Option<u64>;

fn seven_costs_fifty(index: usize) -> Option<u64> {
    if index == 7 {
        Some(50)
    } else {
        None
    }
}

fn drive(observer: &mut dyn Middleware, program: &[Instruction]) -> Result<usize, Error> {
    let mut executed = 0;
    for instruction in program {
        observer.handle(MiddlewareEvent::Instruction(instruction))?;
        executed += 1;
    }
    Ok(executed)
}

#[derive(Default)]
struct CallCounter {
    calls: usize,
}

impl Middleware for CallCounter {
    fn handle(&mut self, event: MiddlewareEvent) -> Result<(), Error> {
        match event {
            MiddlewareEvent::Instruction(Instruction::Call(_)) => self.calls += 1,
            MiddlewareEvent::Instruction(Instruction::Other) => {}
        }
        Ok(())
    }
}

#[test]
fn handle_charges_as_check_gas_does() {
    let program = [
        Instruction::Other,
        Instruction::Call(7),
        Instruction::Call(1),
        Instruction::Other,
        Instruction::Call(7),
        Instruction::Other,
    ];
    let mut direct = InterpreterMonitor::new(2, 106, Some(seven_costs_fifty as Lookup));
    let mut as_observer = InterpreterMonitor::new(2, 106, Some(seven_costs_fifty as Lookup));
    for instruction in program.iter() {
        let checked = direct.check_gas(instruction);
        let handled = as_observer.handle(MiddlewareEvent::Instruction(instruction));
        assert_eq!(handled, checked.map_err(Error::Host));
        assert_eq!(as_observer.current_gas(), direct.current_gas());
    }
    assert_eq!(direct.current_gas(), 108);
}

#[test]
fn handle_reports_exhaustion_as_a_host_error() {
    let mut monitor = InterpreterMonitor::<Lookup>::new(1, 2, None);
    assert_eq!(monitor.handle(MiddlewareEvent::Instruction(&Instruction::Other)), Ok(()));
    assert_eq!(
        monitor.handle(MiddlewareEvent::Instruction(&Instruction::Other)),
        Err(Error::Host(GasMonitorError {}))
    );
    assert_eq!(monitor.current_gas(), 2);
    assert_eq!(
        monitor.handle(MiddlewareEvent::Instruction(&Instruction::Call(0))),
        Err(Error::Host(GasMonitorError {}))
    );
    assert_eq!(monitor.current_gas(), 3);
}

#[test]
fn interpreter_stops_at_the_first_error() {
    let program = [Instruction::Other; 10];
    let mut monitor = InterpreterMonitor::<Lookup>::new(1, 5, None);
    assert_eq!(drive(&mut monitor, &program), Err(Error::Host(GasMonitorError {})));
    assert_eq!(monitor.current_gas(), 5);

    let mut roomy = InterpreterMonitor::<Lookup>::new(1, 11, None);
    assert_eq!(drive(&mut roomy, &program), Ok(10));
    assert_eq!(roomy.current_gas(), 10);
}

#[test]
fn other_observers_fit_the_same_interpreter() {
    let program = [Instruction::Call(1), Instruction::Other, Instruction::Call(2)];
    let mut counter = CallCounter::default();
    assert_eq!(drive(&mut counter, &program), Ok(3));
    assert_eq!(counter.calls, 2);
}

#[test]
fn event_can_be_copied() {
    let instruction = Instruction::Call(3);
    let event = MiddlewareEvent::Instruction(&instruction);
    let copy = event;
    match (event, copy) {
        (MiddlewareEvent::Instruction(first), MiddlewareEvent::Instruction(second)) => {
            assert_eq!(first, second);
            assert_eq!(*first, Instruction::Call(3));
        }
    }
}
