//! The ports of the EV3 brick.
use vstd::prelude::*;

verus! {

/// EV3 ports
pub trait Port {
    /// The name of the port, as a device's `address` attribute holds it.
    spec fn port_address(&self) -> Seq<char>;

    /// Returns the name of the port.
    fn address(&self) -> (r: String)
        ensures
            r@ == self.port_address(),
    ;
}

/// EV3 ports `outA` to `outD`
#[derive(Debug, Clone, Copy, PartialEq, Eq)]
pub enum MotorPort {
    /// EV3 `outA` port
    OutA,
    /// EV3 `outB` port
    OutB,
    /// EV3 `outC` port
    OutC,
    /// EV3 `outD` port
    OutD,
}

impl Port for MotorPort {
    open spec fn port_address(&self) -> Seq<char> {
        match self {
            MotorPort::OutA => "outA"@,
            MotorPort::OutB => "outB"@,
            MotorPort::OutC => "outC"@,
            MotorPort::OutD => "outD"@,
        }
    }

    fn address(&self) -> (r: String) {
        match self {
            MotorPort::OutA => "outA".to_owned(),
            MotorPort::OutB => "outB".to_owned(),
            MotorPort::OutC => "outC".to_owned(),
            MotorPort::OutD => "outD".to_owned(),
        }
    }
}

/// EV3 ports `in1` to `in4`
#[derive(Debug, Clone, Copy, PartialEq, Eq)]
pub enum SensorPort {
    /// EV3 `in1` port
    In1,
    /// EV3 `in2` port
    In2,
    /// EV3 `in3` port
    In3,
    /// EV3 `in4` port
    In4,
}

impl Port for SensorPort {
    open spec fn port_address(&self) -> Seq<char> {
        match self {
            SensorPort::In1 => "in1"@,
            SensorPort::In2 => "in2"@,
            SensorPort::In3 => "in3"@,
            SensorPort::In4 => "in4"@,
        }
    }

    fn address(&self) -> (r: String) {
        match self {
            SensorPort::In1 => "in1".to_owned(),
            SensorPort::In2 => "in2".to_owned(),
            SensorPort::In3 => "in3".to_owned(),
            SensorPort::In4 => "in4".to_owned(),
        }
    }
}

/// Distinct motor ports have distinct addresses.
pub proof fn lemma_motor_port_addresses_distinct(a: MotorPort, b: MotorPort)
    requires
        a != b,
    ensures
        a.port_address() != b.port_address(),
{
    reveal_strlit("outA");
    reveal_strlit("outB");
    reveal_strlit("outC");
    reveal_strlit("outD");
    assert(a.port_address()[3] != b.port_address()[3]);
}

/// Distinct sensor ports have distinct addresses.
pub proof fn lemma_sensor_port_addresses_distinct(a: SensorPort, b: SensorPort)
    requires
        a != b,
    ensures
        a.port_address() != b.port_address(),
{
    reveal_strlit("in1");
    reveal_strlit("in2");
    reveal_strlit("in3");
    reveal_strlit("in4");
    assert(a.port_address()[2] != b.port_address()[2]);
}

/// The motor ports are named as ev3dev names them in a device's `address` attribute:
/// `outA`, `outB`, `outC` and `outD`.
pub proof fn lemma_motor_port_names()
    ensures
        MotorPort::OutA.port_address() == seq!['o', 'u', 't', 'A'],
        MotorPort::OutB.port_address() == seq!['o', 'u', 't', 'B'],
        MotorPort::OutC.port_address() == seq!['o', 'u', 't', 'C'],
        MotorPort::OutD.port_address() == seq!['o', 'u', 't', 'D'],
{
    reveal_strlit("outA");
    reveal_strlit("outB");
    reveal_strlit("outC");
    reveal_strlit("outD");
    assert(MotorPort::OutA.port_address() =~= seq!['o', 'u', 't', 'A']);
    assert(MotorPort::OutB.port_address() =~= seq!['o', 'u', 't', 'B']);
    assert(MotorPort::OutC.port_address() =~= seq!['o', 'u', 't', 'C']);
    assert(MotorPort::OutD.port_address() =~= seq!['o', 'u', 't', 'D']);
}

/// The sensor ports are named as ev3dev names them in a device's `address` attribute:
/// `in1`, `in2`, `in3` and `in4`.
pub proof fn lemma_sensor_port_names()
    ensures
        SensorPort::In1.port_address() == seq!['i', 'n', '1'],
        SensorPort::In2.port_address() == seq!['i', 'n', '2'],
        SensorPort::In3.port_address() == seq!['i', 'n', '3'],
        SensorPort::In4.port_address() == seq!['i', 'n', '4'],
{
    reveal_strlit("in1");
    reveal_strlit("in2");
    reveal_strlit("in3");
    reveal_strlit("in4");
    assert(SensorPort::In1.port_address() =~= seq!['i', 'n', '1']);
    assert(SensorPort::In2.port_address() =~= seq!['i', 'n', '2']);
    assert(SensorPort::In3.port_address() =~= seq!['i', 'n', '3']);
    assert(SensorPort::In4.port_address() =~= seq!['i', 'n', '4']);
}

} // verus!
