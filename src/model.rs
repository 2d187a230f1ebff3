use vstd::prelude::*;

verus! {

/// Lifecycle state of one container, as reported by the runtime.
#[derive(Clone, Copy, Debug, PartialEq, Eq, Structural)]
pub enum ContainerState {
    Created,
    Running,
    Paused,
    Restarting,
    Exited,
    Dead,
    Unknown,
}

/// The state a runtime state name denotes.
pub open spec fn state_named(s: Seq<char>) -> ContainerState {
    if s == "created"@ {
        ContainerState::Created
    } else if s == "running"@ {
        ContainerState::Running
    } else if s == "paused"@ {
        ContainerState::Paused
    } else if s == "restarting"@ {
        ContainerState::Restarting
    } else if s == "exited"@ {
        ContainerState::Exited
    } else if s == "dead"@ {
        ContainerState::Dead
    } else {
        ContainerState::Unknown
    }
}

impl ContainerState {
    /// Reads a state name as the runtime reports it (`"running"`,
    /// `"exited"`, ...); any other name is `Unknown`.
    pub fn from_name(s: &String) -> (r: ContainerState)
        ensures
            r == state_named(s@),
    {
        if *s == "created".to_owned() {
            ContainerState::Created
        } else if *s == "running".to_owned() {
            ContainerState::Running
        } else if *s == "paused".to_owned() {
            ContainerState::Paused
        } else if *s == "restarting".to_owned() {
            ContainerState::Restarting
        } else if *s == "exited".to_owned() {
            ContainerState::Exited
        } else if *s == "dead".to_owned() {
            ContainerState::Dead
        } else {
            ContainerState::Unknown
        }
    }

    /// Whether the container is running.
    pub fn is_running(&self) -> (r: bool)
        ensures
            r == (*self == ContainerState::Running),
    {
        match self {
            ContainerState::Running => true,
            _ => false,
        }
    }
}

/// One published port of a container.
#[derive(Clone, Copy, Debug, PartialEq, Eq, Structural)]
pub struct PortBinding {
    pub private: u16,
    pub public: Option<u16>,
}

/// Observable state of one runtime-managed container.
#[derive(Debug)]
pub struct ContainerRecord {
    pub id: String,
    pub name: String,
    pub image: String,
    /// The command the container runs.
    pub command: String,
    pub state: ContainerState,
    /// CPU usage in hundredths of a percent.
    pub cpu_centi_percent: u64,
    /// Memory usage in bytes.
    pub memory_bytes: u64,
    pub ports: Vec<PortBinding>,
    /// Creation time, seconds since the Unix epoch.
    pub created: u64,
}

/// Mathematical model of a container record.
pub struct RecordView {
    pub id: Seq<char>,
    pub name: Seq<char>,
    pub image: Seq<char>,
    pub command: Seq<char>,
    pub state: ContainerState,
    pub cpu_centi_percent: u64,
    pub memory_bytes: u64,
    pub ports: Seq<PortBinding>,
    pub created: u64,
}

impl View for ContainerRecord {
    type V = RecordView;

    open spec fn view(&self) -> RecordView {
        RecordView {
            id: self.id@,
            name: self.name@,
            image: self.image@,
            command: self.command@,
            state: self.state,
            cpu_centi_percent: self.cpu_centi_percent,
            memory_bytes: self.memory_bytes,
            ports: self.ports@,
            created: self.created,
        }
    }
}

/// The model of a sequence of records.
pub open spec fn records_view(s: Seq<ContainerRecord>) -> Seq<RecordView> {
    s.map_values(|r: ContainerRecord| r@)
}

impl ContainerRecord {
    /// A field-for-field copy.
    pub fn duplicate(&self) -> (r: ContainerRecord)
        ensures
            r@ == self@,
    {
        let mut ports: Vec<PortBinding> = Vec::new();
        let mut i: usize = 0;
        while i < self.ports.len()
            invariant
                i <= self.ports.len(),
                ports@ == self.ports@.subrange(0, i as int),
            decreases self.ports.len() - i,
        {
            ports.push(self.ports[i]);
            i = i + 1;
            assert(ports@ =~= self.ports@.subrange(0, i as int));
        }
        assert(ports@ =~= self.ports@);
        ContainerRecord {
            id: self.id.clone(),
            name: self.name.clone(),
            image: self.image.clone(),
            command: self.command.clone(),
            state: self.state,
            cpu_centi_percent: self.cpu_centi_percent,
            memory_bytes: self.memory_bytes,
            ports,
            created: self.created,
        }
    }
}

/// CPU usage in hundredths of a percent over one sampling interval: the
/// container's share of the system's CPU time, scaled by the number of
/// online CPUs; zero when the system time did not advance, and capped at
/// the largest `u64`.
pub open spec fn cpu_usage(cpu_delta: u64, system_delta: u64, online_cpus: u64) -> u64 {
    if system_delta == 0 {
        0
    } else {
        let v = (cpu_delta as int) * (online_cpus as int) * 10000 / (system_delta as int);
        if v > u64::MAX {
            u64::MAX
        } else {
            v as u64
        }
    }
}

/// Computes [`cpu_usage`].
pub fn cpu_centi_percent(cpu_delta: u64, system_delta: u64, online_cpus: u64) -> (r: u64)
    ensures
        r == cpu_usage(cpu_delta, system_delta, online_cpus),
{
    if system_delta == 0 {
        return 0;
    }
    proof {
        assert((cpu_delta as int) * (online_cpus as int) <= (u64::MAX as int) * (u64::MAX as int))
            by (nonlinear_arith);
        assert((u64::MAX as int) * (u64::MAX as int) <= u128::MAX);
    }
    let p: u128 = (cpu_delta as u128) * (online_cpus as u128);
    match p.checked_mul(10000) {
        Some(q) => {
            let v = q / (system_delta as u128);
            if v > u64::MAX as u128 {
                u64::MAX
            } else {
                v as u64
            }
        },
        None => {
            proof {
                let t = (p as int) * 10000;
                let d = system_delta as int;
                assert(t > u128::MAX);
                assert(t / d > u64::MAX) by (nonlinear_arith)
                    requires
                        t > u128::MAX,
                        0 < d <= u64::MAX,
                        u128::MAX == 340282366920938463463374607431768211455int,
                        u64::MAX == 18446744073709551615int,
                ;
            }
            u64::MAX
        },
    }
}

/// CPU usage in hundredths of a percent from two samples of the
/// container's and the system's cumulative CPU time; a counter that went
/// backwards counts as no progress.
pub fn cpu_from_samples(total: u64, pre_total: u64, system: u64, pre_system: u64, online_cpus: u64) -> (r: u64)
    ensures
        r == cpu_usage(
            if total >= pre_total { (total - pre_total) as u64 } else { 0 },
            if system >= pre_system { (system - pre_system) as u64 } else { 0 },
            online_cpus,
        ),
{
    cpu_centi_percent(total.saturating_sub(pre_total), system.saturating_sub(pre_system), online_cpus)
}

/// The condition that ends the process once surfaced.
#[derive(Clone, Copy, Debug, PartialEq, Eq, Structural)]
pub enum AppError {
    /// The daemon could not be reached, or the liveness probe failed.
    DockerConnect,
    /// An established connection to the daemon was lost.
    ConnectionLost,
}

/// The text shown for a fatal error.
pub open spec fn message_of(e: AppError) -> Seq<char> {
    match e {
        AppError::DockerConnect => "Unable to access docker daemon"@,
        AppError::ConnectionLost => "Connection to docker daemon lost"@,
    }
}

impl AppError {
    /// Text shown to the operator.
    pub fn message(&self) -> (r: String)
        ensures
            r@ == message_of(*self),
    {
        match self {
            AppError::DockerConnect => "Unable to access docker daemon".to_owned(),
            AppError::ConnectionLost => "Connection to docker daemon lost".to_owned(),
        }
    }
}

} // verus!
