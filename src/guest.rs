use vstd::prelude::*;

use crate::error::VmError;
use crate::text::push_text;

verus! {

/// The one shell command run in the guest: replace its address, bring its link up, replace
/// its default route via the host, and rewrite its resolver.
pub open spec fn guest_command_text(guest_ip: Seq<char>, host_ip: Seq<char>) -> Seq<char> {
    "ip addr replace "@ + guest_ip + "/30 dev eth0 && ip link set eth0 up && ip route replace default via "@
        + host_ip + " && echo 'nameserver 8.8.8.8' > /etc/resolv.conf"@
}

/// The guest network configuration command for the given addresses.
pub fn guest_network_command(guest_ip: &String, host_ip: &String) -> (r: String)
    ensures
        r@ == guest_command_text(guest_ip@, host_ip@),
{
    let mut s = String::new();
    push_text(&mut s, "ip addr replace ");
    push_text(&mut s, guest_ip.as_str());
    push_text(&mut s, "/30 dev eth0 && ip link set eth0 up && ip route replace default via ");
    push_text(&mut s, host_ip.as_str());
    push_text(&mut s, " && echo 'nameserver 8.8.8.8' > /etc/resolv.conf");
    assert(s@ =~= guest_command_text(guest_ip@, host_ip@));
    s
}

/// The outcome of the guest command: success on exit status 0, else a `GuestConfigError`
/// carrying what the command printed.
pub fn check_guest_exit(exit_status: i32, stdout: String, stderr: String) -> (r: Result<(), VmError>)
    ensures
        r is Ok <==> exit_status == 0,
        r matches Err(e) ==> e matches VmError::GuestConfigError { stdout: o, stderr: x } && o@
            == stdout@ && x@ == stderr@,
{
    if exit_status == 0 {
        Ok(())
    } else {
        Err(VmError::GuestConfigError { stdout, stderr })
    }
}

/// Port of the guest's remote administration service.
pub const GUEST_SSH_PORT: u16 = 22;

/// Delay before the first control call after the hypervisor is spawned.
pub const CHANNEL_GRACE_MS: u64 = 500;

/// The wait before retry number `attempt + 1`: 500 ms, doubling up to 4 s.
pub open spec fn backoff_ms(attempt: nat) -> nat {
    if attempt == 0 {
        500
    } else if attempt == 1 {
        1000
    } else if attempt == 2 {
        2000
    } else {
        4000
    }
}

/// What to do after one connection attempt.
pub enum PollDecision {
    /// The guest answered.
    Reached,
    /// Sleep this long, then try again.
    RetryAfter { millis: u64 },
    /// The allowed wait is used up.
    GiveUp,
}

/// A bounded retry-with-backoff wait for a resource to become reachable.
pub struct ReachabilityWait {
    pub attempts: u32,
    pub waited_ms: u64,
    pub max_wait_ms: u64,
}

impl ReachabilityWait {
    /// The total wait never exceeds the bound.
    pub open spec fn wf(&self) -> bool {
        self.waited_ms <= self.max_wait_ms
    }

    /// A wait that has not tried yet and may sleep `max_wait_ms` in all.
    pub fn new(max_wait_ms: u64) -> (r: ReachabilityWait)
        ensures
            r.wf(),
            r.attempts == 0,
            r.waited_ms == 0,
            r.max_wait_ms == max_wait_ms,
    {
        ReachabilityWait { attempts: 0, waited_ms: 0, max_wait_ms }
    }

    fn backoff(attempt: u32) -> (d: u64)
        ensures
            d == backoff_ms(attempt as nat),
    {
        if attempt == 0 {
            500
        } else if attempt == 1 {
            1000
        } else if attempt == 2 {
            2000
        } else {
            4000
        }
    }

    /// Decides after an attempt: done when it connected; else sleep the next backoff step if
    /// that stays within the bound, or give up.
    pub fn on_attempt(&mut self, connected: bool) -> (d: PollDecision)
        requires
            old(self).wf(),
        ensures
            final(self).wf(),
            final(self).max_wait_ms == old(self).max_wait_ms,
            connected ==> d is Reached && *final(self) == *old(self),
            !connected && old(self).waited_ms + backoff_ms(old(self).attempts as nat)
                > old(self).max_wait_ms ==> d is GiveUp && *final(self) == *old(self),
            !connected && old(self).waited_ms + backoff_ms(old(self).attempts as nat)
                <= old(self).max_wait_ms ==> d == (PollDecision::RetryAfter {
                millis: backoff_ms(old(self).attempts as nat) as u64,
            }) && final(self).waited_ms == old(self).waited_ms + backoff_ms(
                old(self).attempts as nat,
            ) && final(self).attempts == (if old(self).attempts == u32::MAX {
                u32::MAX as int
            } else {
                old(self).attempts + 1
            }),
    {
        if connected {
            return PollDecision::Reached;
        }
        let d = Self::backoff(self.attempts);
        if d > self.max_wait_ms - self.waited_ms {
            PollDecision::GiveUp
        } else {
            self.waited_ms = self.waited_ms + d;
            if self.attempts < u32::MAX {
                self.attempts = self.attempts + 1;
            }
            PollDecision::RetryAfter { millis: d }
        }
    }

}

} // verus!
