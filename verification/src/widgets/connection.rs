//! Connection widget: choice of a port and state of the connection.

use vstd::prelude::*;
use crate::communication::GrblController;
use crate::text::{
    is_numeric, starts_with, chars_of, string_of, extend, extend_str, decimal, decimal_of,
    char_is_numeric, begins_with,
};

verus! {

/// State of the connection widget.
#[derive(Debug)]
pub struct ConnectionWidget {
    pub port: String,
    pub connected: bool,
    pub available_ports: Vec<String>,
    pub baud_rate: u32,
    pub status_message: String,
}

/// Whether every mark from index `from` on is set.
pub open spec fn all_from(marks: Seq<bool>, from: int) -> bool {
    forall|i: int| from <= i < marks.len() ==> #[trigger] marks[i]
}

/// For each character of a text, whether it is a number.
pub open spec fn numbers_in(s: Seq<char>) -> Seq<bool> {
    Seq::new(s.len(), |i: int| is_numeric(s[i]))
}

/// Whether a port name is one that a GRBL device can stand behind, where
/// `numbers` marks the characters of the name that are numbers: `COM`,
/// `/dev/ttyUSB` or `/dev/ttyACM` followed by numbers only, or a name that
/// begins with `/dev/tty.usbserial-` or `/dev/cu.usbserial-`.
pub open spec fn is_valid_port_with(port: Seq<char>, numbers: Seq<bool>) -> bool {
    if starts_with(port, "COM"@) {
        all_from(numbers, 3)
    } else if starts_with(port, "/dev/ttyUSB"@) {
        all_from(numbers, 11)
    } else if starts_with(port, "/dev/ttyACM"@) {
        all_from(numbers, 11)
    } else {
        starts_with(port, "/dev/tty.usbserial-"@) || starts_with(port, "/dev/cu.usbserial-"@)
    }
}

/// Whether a port name is one that a GRBL device can stand behind.
pub open spec fn is_valid_port(port: Seq<char>) -> bool {
    is_valid_port_with(port, numbers_in(port))
}

/// The valid ports among the first `k`, in order.
pub open spec fn valid_ports_upto(ports: Seq<String>, k: int) -> Seq<String>
    decreases k,
{
    if k <= 0 || k > ports.len() {
        Seq::empty()
    } else if is_valid_port(ports[k - 1]@) {
        valid_ports_upto(ports, k - 1).push(ports[k - 1])
    } else {
        valid_ports_upto(ports, k - 1)
    }
}

/// The text shown for a connection that stands.
pub open spec fn connected_text(port: Seq<char>, baud_rate: u32) -> Seq<char> {
    "Connected - "@ + port + " @ "@ + decimal(baud_rate as nat)
}

fn all_set_from(marks: &Vec<bool>, from: usize) -> (r: bool)
    ensures
        r == all_from(marks@, from as int),
{
    let mut i: usize = from;
    while i < marks.len()
        invariant
            from <= i,
            forall|k: int| from <= k < i && k < marks.len() ==> #[trigger] marks@[k],
        decreases marks.len() - i,
    {
        if !marks[i] {
            return false;
        }
        i += 1;
    }
    true
}

/// Whether a port name is one that a GRBL device can stand behind, where
/// `numbers` marks the characters of the name that are numbers.
pub fn port_is_valid_with(port: &str, numbers: &Vec<bool>) -> (r: bool)
    ensures
        r == is_valid_port_with(port@, numbers@),
{
    let v = chars_of(port);
    if begins_with(&v, "COM") {
        all_set_from(numbers, 3)
    } else if begins_with(&v, "/dev/ttyUSB") {
        all_set_from(numbers, 11)
    } else if begins_with(&v, "/dev/ttyACM") {
        all_set_from(numbers, 11)
    } else {
        begins_with(&v, "/dev/tty.usbserial-") || begins_with(&v, "/dev/cu.usbserial-")
    }
}

/// Whether a port name is one that a GRBL device can stand behind.
pub fn port_is_valid(port: &str) -> (r: bool)
    ensures
        r == is_valid_port(port@),
{
    let v = chars_of(port);
    let mut numbers: Vec<bool> = Vec::new();
    let mut i: usize = 0;
    while i < v.len()
        invariant
            i <= v.len(),
            numbers@ == numbers_in(v@.take(i as int)),
        decreases v.len() - i,
    {
        let number = char_is_numeric(v[i]);
        numbers.push(number);
        assert(numbers@ =~= numbers_in(v@.take(i + 1)));
        i += 1;
    }
    assert(v@.take(v.len() as int) == v@);
    port_is_valid_with(port, &numbers)
}

fn connected_status(port: &String, baud_rate: u32) -> (r: String)
    ensures
        r@ == connected_text(port@, baud_rate),
{
    let mut v = chars_of("Connected - ");
    extend_str(&mut v, port.as_str());
    extend_str(&mut v, " @ ");
    let baud = decimal_of(baud_rate as u128);
    extend(&mut v, &baud);
    string_of(&v)
}

fn labelled(label: &str, text: &String) -> (r: String)
    ensures
        r@ == label@ + text@,
{
    let mut v = chars_of(label);
    extend_str(&mut v, text.as_str());
    string_of(&v)
}

impl ConnectionWidget {
    /// A widget that is not connected and knows no port.
    pub fn new() -> (r: ConnectionWidget)
        ensures
            r.port@ == Seq::<char>::empty(),
            !r.connected,
            r.available_ports@ == Seq::<String>::empty(),
            r.baud_rate == 115200,
            r.status_message@ == "Disconnected"@,
    {
        ConnectionWidget {
            port: String::new(),
            connected: false,
            available_ports: Vec::new(),
            baud_rate: 115200,
            status_message: "Disconnected".to_owned(),
        }
    }

    /// The valid ports among the given ones, in order.
    pub fn filter_valid_ports(ports: Vec<String>) -> (r: Vec<String>)
        ensures
            r@ == valid_ports_upto(ports@, ports@.len() as int),
    {
        let mut r: Vec<String> = Vec::new();
        let mut i: usize = 0;
        while i < ports.len()
            invariant
                i <= ports@.len(),
                r@ == valid_ports_upto(ports@, i as int),
            decreases ports@.len() - i,
        {
            if port_is_valid(ports[i].as_str()) {
                r.push(ports[i].clone());
            }
            i += 1;
        }
        r
    }

    /// Takes the outcome of listing the ports of the system: the valid ones
    /// among those listed become the ports on offer, and a failure leaves
    /// none on offer and is handed on.
    pub fn refresh_ports(&mut self, listed: Result<Vec<String>, String>) -> (r: Result<(), String>)
        ensures
            match listed {
                Ok(ports) => r is Ok && final(self).available_ports@ == valid_ports_upto(
                    ports@,
                    ports@.len() as int,
                ),
                Err(e) => r == Err::<(), String>(e) && final(self).available_ports@ == Seq::<
                    String,
                >::empty(),
            },
            final(self).port == old(self).port,
            final(self).connected == old(self).connected,
            final(self).baud_rate == old(self).baud_rate,
            final(self).status_message == old(self).status_message,
    {
        match listed {
            Ok(ports) => {
                self.available_ports = Self::filter_valid_ports(ports);
                Ok(())
            },
            Err(e) => {
                self.available_ports = Vec::new();
                Err(e)
            },
        }
    }

    /// Takes the outcome of connecting to `port`. Without a port nothing is
    /// tried. Success makes the widget connected to the port; failure leaves
    /// it disconnected and is handed on.
    pub fn connect(&mut self, port: String, outcome: Result<(), String>) -> (r: Result<
        (),
        String,
    >)
        ensures
            final(self).available_ports == old(self).available_ports,
            final(self).baud_rate == old(self).baud_rate,
            port@.len() == 0 ==> r is Err && r->Err_0@ == "No port selected"@ && *final(self)
                == *old(self),
            port@.len() > 0 && outcome is Ok ==> r is Ok && final(self).port == port && final(self).connected && final(self).status_message@ == "Connected to "@ + port@,
            port@.len() > 0 && outcome is Err ==> r == outcome && final(self).port == old(self).port
                && !final(self).connected && final(self).status_message@ == "Failed: "@
                + outcome->Err_0@,
    {
        if port.as_str().is_empty() {
            return Err("No port selected".to_owned());
        }
        match outcome {
            Ok(_) => {
                self.status_message = labelled("Connected to ", &port);
                self.port = port;
                self.connected = true;
                Ok(())
            },
            Err(e) => {
                self.connected = false;
                self.status_message = labelled("Failed: ", &e);
                Err(e)
            },
        }
    }

    /// Takes the outcome of disconnecting. Without a port nothing is tried.
    /// Success leaves the widget disconnected without a port; failure
    /// changes nothing and is handed on.
    pub fn disconnect(&mut self, outcome: Result<(), String>) -> (r: Result<(), String>)
        ensures
            final(self).available_ports == old(self).available_ports,
            final(self).baud_rate == old(self).baud_rate,
            old(self).port@.len() == 0 ==> r is Err && r->Err_0@ == "No port connected"@ && *final(self) == *old(self),
            old(self).port@.len() > 0 && outcome is Ok ==> r is Ok && final(self).port@ == Seq::<
                char,
            >::empty() && !final(self).connected && final(self).status_message@
                == "Disconnected"@,
            old(self).port@.len() > 0 && outcome is Err ==> r == outcome && *final(self) == *old(self),
    {
        if self.port.as_str().is_empty() {
            return Err("No port connected".to_owned());
        }
        match outcome {
            Ok(_) => {
                self.connected = false;
                self.status_message = "Disconnected".to_owned();
                self.port = String::new();
                Ok(())
            },
            Err(e) => Err(e),
        }
    }

    /// Sets the baud rate to connect with.
    pub fn set_baud_rate(&mut self, rate: u32)
        ensures
            *final(self) == (ConnectionWidget { baud_rate: rate, ..*old(self) }),
    {
        self.baud_rate = rate;
    }

    /// The state of the connection as text.
    pub fn get_status(&self) -> (r: String)
        ensures
            r@ == if self.connected {
                connected_text(self.port@, self.baud_rate)
            } else {
                "Disconnected"@
            },
    {
        if self.connected {
            connected_status(&self.port, self.baud_rate)
        } else {
            "Disconnected".to_owned()
        }
    }

    /// Takes over whether the controller is connected; the message changes
    /// only when that differs from what the widget held.
    pub fn sync_with_controller(&mut self, controller: &GrblController)
        ensures
            final(self).port == old(self).port,
            final(self).available_ports == old(self).available_ports,
            final(self).baud_rate == old(self).baud_rate,
            final(self).connected == controller@.status.connected,
            controller@.status.connected == old(self).connected ==> final(self).status_message
                == old(self).status_message,
            controller@.status.connected != old(self).connected ==> final(self).status_message@
                == if controller@.status.connected {
                connected_text(old(self).port@, old(self).baud_rate)
            } else {
                "Disconnected"@
            },
    {
        let is_connected = controller.is_connected();
        if is_connected != self.connected {
            self.connected = is_connected;
            self.status_message = if is_connected {
                connected_status(&self.port, self.baud_rate)
            } else {
                "Disconnected".to_owned()
            };
        }
    }
}

impl Default for ConnectionWidget {
    fn default() -> (r: ConnectionWidget)
        ensures
            r.port@ == Seq::<char>::empty(),
            !r.connected,
            r.available_ports@ == Seq::<String>::empty(),
            r.baud_rate == 115200,
            r.status_message@ == "Disconnected"@,
    {
        ConnectionWidget::new()
    }
}

} // verus!
