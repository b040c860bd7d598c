//! The serial command responder. It runs off the navigation loop's
//! cadence, invoked whenever the transport has been polled; the
//! transport itself (USB device, reads, writes) stays outside the
//! library and hands in the bytes that arrived.

use vstd::prelude::*;

verus! {

/// The bytes of the one command the responder answers specially:
/// `"test\n"`.
pub open spec fn test_command() -> Seq<u8> {
    seq![116u8, 101u8, 115u8, 116u8, 10u8]
}

/// What one poll asks the transport to send, in this order: the
/// one-time ready banner, a verbatim echo of the input, and the
/// scripted reply to the recognized command.
#[derive(Clone, Copy, Debug, PartialEq, Eq, Structural)]
pub struct SerialOutput {
    pub send_ready: bool,
    pub echo_input: bool,
    pub send_scripted_reply: bool,
}

/// The responder's only persistent state: whether the ready banner has
/// gone out yet.
pub struct SerialResponder {
    pub ready_sent: bool,
}

impl SerialResponder {
    /// A fresh responder; its first poll will send the ready banner.
    pub fn new() -> (r: SerialResponder)
        ensures
            !r.ready_sent,
    {
        SerialResponder { ready_sent: false }
    }

    /// One poll, with the bytes that arrived (empty on a failed or
    /// empty read, both of which are no-ops beyond the banner). The
    /// banner goes out exactly once, on the first poll; nonempty input
    /// is echoed verbatim; input equal to the command bytes earns the
    /// scripted reply in addition to — not instead of — the echo.
    pub fn on_poll(&mut self, data: &Vec<u8>) -> (out: SerialOutput)
        ensures
            final(self).ready_sent,
            out.send_ready == !old(self).ready_sent,
            out.echo_input == (data@.len() > 0),
            out.send_scripted_reply == (data@ == test_command()),
    {
        let send_ready = !self.ready_sent;
        self.ready_sent = true;
        let is_command = data.len() == 5
            && data[0] == 116u8
            && data[1] == 101u8
            && data[2] == 115u8
            && data[3] == 116u8
            && data[4] == 10u8;
        proof {
            if is_command {
                assert(data@ =~= test_command());
            } else {
                if data@ == test_command() {
                    assert(data@.len() == 5);
                    assert(data@[0] == 116u8 && data@[1] == 101u8 && data@[2] == 115u8
                        && data@[3] == 116u8 && data@[4] == 10u8);
                }
            }
        }
        SerialOutput {
            send_ready,
            echo_input: data.len() > 0,
            send_scripted_reply: is_command,
        }
    }
}

/// The banner sent exactly once, after the transport first comes up.
pub fn ready_message() -> (s: &'static str)
    ensures
        s@ == "LYNIXFW READY\r\n"@,
{
    "LYNIXFW READY\r\n"
}

/// The scripted reply to the recognized command.
pub fn scripted_reply() -> (s: &'static str)
    ensures
        s@ == "lynix is cute."@,
{
    "lynix is cute."
}

} // verus!
