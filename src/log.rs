use vstd::prelude::*;

verus! {

/// The shared record sink and the run's active flag.
///
/// One owner clears the flag once to end a run; every component polls it
/// at the top of its cycle.
pub struct SystemLog {
    pub entries: Vec<String>,
    /// Messages raised at alert severity, also present in `entries`.
    pub alerts: Vec<String>,
    pub active: bool,
}

impl SystemLog {
    /// An empty, active log.
    pub fn new() -> (r: Self)
        ensures
            r.entries@ == Seq::<String>::empty(),
            r.alerts@ == Seq::<String>::empty(),
            r.active,
    {
        SystemLog { entries: Vec::new(), alerts: Vec::new(), active: true }
    }

    /// Appends `msg`.
    pub fn write(&mut self, msg: String)
        ensures
            final(self).entries@ == old(self).entries@.push(msg),
            final(self).alerts@ == old(self).alerts@,
            final(self).active == old(self).active,
    {
        self.entries.push(msg);
    }

    /// Appends `msg` and raises it at alert severity.
    pub fn alert(&mut self, msg: String)
        ensures
            final(self).entries@ == old(self).entries@.push(msg),
            final(self).alerts@ == old(self).alerts@.push(msg),
            final(self).active == old(self).active,
    {
        self.alerts.push(msg.clone());
        self.entries.push(msg);
    }

    /// Whether the run is still going.
    pub fn is_active(&self) -> (r: bool)
        ensures
            r == self.active,
    {
        self.active
    }

    /// Ends the run: every component that polls the flag afterwards stops.
    pub fn shutdown(&mut self)
        ensures
            !final(self).active,
            final(self).entries@ == old(self).entries@,
            final(self).alerts@ == old(self).alerts@,
    {
        self.active = false;
    }
}

} // verus!
