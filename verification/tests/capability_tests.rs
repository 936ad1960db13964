use plugin_host::bridge::{
    reply, Edge, ErrorCode, HardwareFault, HardwareRequest, HostComponent, PinState, OUTPUT_LINE,
};
use plugin_host::capability::{
    Capability, CapabilityTable, Delay, HandleFault, InputPin, OutputPin,
};

#[test]
fn pushed_capabilities_are_found_under_their_handles() {
    let mut table = CapabilityTable::new(1);
    let a = table.push(Capability::OutputPin(OutputPin(17))).unwrap();
    let b = table.push(Capability::Delay(Delay)).unwrap();
    assert_ne!(a, b);
    assert_eq!(a.rep(), 0);
    assert_eq!(b.rep(), 1);
    assert_eq!(table.get(a), Ok(&Capability::OutputPin(OutputPin(17))));
    assert_eq!(table.get(b), Ok(&Capability::Delay(Delay)));
}

#[test]
fn handle_never_issued_faults() {
    let mut table = CapabilityTable::new(1);
    let never = table.handle_of(0);
    assert_eq!(table.get(never), Err(HandleFault));
    assert_eq!(table.delete(never), Err(HandleFault));
    let issued = table.push(Capability::Delay(Delay)).unwrap();
    let beyond = table.handle_of(issued.rep() + 1);
    assert_eq!(table.get(beyond), Err(HandleFault));
    assert_eq!(table.delete(beyond), Err(HandleFault));
    assert_eq!(table.get(issued), Ok(&Capability::Delay(Delay)));
}

#[test]
fn deleted_handle_faults_and_stays_invalid() {
    let mut table = CapabilityTable::new(1);
    let a = table.push(Capability::InputPin(InputPin(4))).unwrap();
    assert_eq!(table.delete(a), Ok(Capability::InputPin(InputPin(4))));
    assert_eq!(table.get(a), Err(HandleFault));
    assert_eq!(table.delete(a), Err(HandleFault));
    let b = table.push(Capability::Delay(Delay)).unwrap();
    assert_ne!(a, b);
    assert_eq!(table.get(a), Err(HandleFault));
    assert_eq!(table.get(b), Ok(&Capability::Delay(Delay)));
}

#[test]
fn handle_of_another_table_faults() {
    let mut first = CapabilityTable::new(1);
    let mut second = CapabilityTable::new(2);
    let a = first.push(Capability::Delay(Delay)).unwrap();
    let b = second.push(Capability::Delay(Delay)).unwrap();
    assert_eq!(a.rep(), b.rep());
    assert_eq!(second.get(a), Err(HandleFault));
    assert_eq!(first.get(b), Err(HandleFault));
    assert_eq!(second.delete(a), Err(HandleFault));
    assert_eq!(second.get(b), Ok(&Capability::Delay(Delay)));
}

#[test]
fn handle_reuse_after_drop_faults() {
    let (mut host, led, delay) = HostComponent::for_plugin(7);
    assert_eq!(host.set_high(led), Ok(HardwareRequest::Drive { line: OUTPUT_LINE, level: PinState::High }));
    assert_eq!(host.drop(led), Ok(()));
    assert_eq!(host.set_high(led), Err(HandleFault));
    assert_eq!(host.set_low(led), Err(HandleFault));
    assert_eq!(host.drop(led), Err(HandleFault));
    assert_eq!(host.delay_ns(delay, 5), Ok(HardwareRequest::Sleep { nanoseconds: 5 }));
}

#[test]
fn level_wait_is_unsupported() {
    let (mut host, led, _delay) = HostComponent::for_plugin(7);
    let pin = host.table.push(Capability::InputPin(InputPin(23))).unwrap();
    assert_eq!(host.wait_for_high(pin), Err(ErrorCode::Unsupported));
    assert_eq!(host.wait_for_low(pin), Err(ErrorCode::Unsupported));
    assert_eq!(host.wait_for_high(led), Err(ErrorCode::Unsupported));
    assert_eq!(host.is_set_high(led), Err(ErrorCode::Unsupported));
    assert_eq!(host.is_set_low(led), Err(ErrorCode::Unsupported));
    assert_eq!(host.toggle(led), Err(ErrorCode::Unsupported));
}

#[test]
fn plugin_run_starts_with_output_pin_and_delay() {
    let (host, led, delay) = HostComponent::for_plugin(3);
    assert_ne!(led, delay);
    assert_eq!(host.table.get(led), Ok(&Capability::OutputPin(OutputPin(17))));
    assert_eq!(host.table.get(delay), Ok(&Capability::Delay(Delay)));
    assert_eq!(OUTPUT_LINE, 17);
}

#[test]
fn calls_resolve_to_requests_by_kind() {
    let (mut host, led, delay) = HostComponent::for_plugin(3);
    let pin = host.table.push(Capability::InputPin(InputPin(23))).unwrap();
    assert_eq!(host.is_low(pin), Ok(HardwareRequest::IsLow { line: 23 }));
    assert_eq!(host.is_high(pin), Ok(HardwareRequest::IsHigh { line: 23 }));
    assert_eq!(host.wait_for_rising_edge(pin), Ok(HardwareRequest::AwaitEdge { line: 23, edge: Edge::Rising }));
    assert_eq!(host.wait_for_falling_edge(pin), Ok(HardwareRequest::AwaitEdge { line: 23, edge: Edge::Falling }));
    assert_eq!(host.wait_for_any_edge(pin), Ok(HardwareRequest::AwaitEdge { line: 23, edge: Edge::Any }));
    assert_eq!(host.set_low(led), Ok(HardwareRequest::Drive { line: 17, level: PinState::Low }));
    assert_eq!(host.set_state(led, PinState::High), Ok(HardwareRequest::Drive { line: 17, level: PinState::High }));
    assert_eq!(host.set_state(led, PinState::Low), Ok(HardwareRequest::Drive { line: 17, level: PinState::Low }));
    assert_eq!(host.delay_ns(delay, 4294967295), Ok(HardwareRequest::Sleep { nanoseconds: 4294967295 }));
    assert_eq!(host.is_low(led), Err(HandleFault));
    assert_eq!(host.set_low(pin), Err(HandleFault));
    assert_eq!(host.delay_ns(led, 1), Err(HandleFault));
    assert_eq!(host.wait_for_any_edge(delay), Err(HandleFault));
}

#[test]
fn driver_failure_becomes_one_error_code() {
    assert_eq!(reply(Ok::<bool, HardwareFault>(true)), Ok(true));
    assert_eq!(reply(Ok::<bool, HardwareFault>(false)), Ok(false));
    assert_eq!(reply(Ok::<(), HardwareFault>(())), Ok(()));
    assert_eq!(reply(Err::<bool, HardwareFault>(HardwareFault)), Err(ErrorCode::Other));
    assert_eq!(reply(Err::<(), HardwareFault>(HardwareFault)), Err(ErrorCode::Other));
}
