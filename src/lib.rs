//! An emulator of a 4-bit microprocessor system in the style of the MCS-4
//! chipset: a processor, program memory, banked data memory and I/O ports.

use vstd::prelude::*;

pub mod bus;
pub mod cli;
pub mod cpu;
pub mod dev;
pub mod isa;
pub mod laws;
pub mod port;
pub mod ram;
pub mod rom;

use crate::bus::{bus_ok, Bus};
use crate::cpu::{step_rel, Cpu, CpuView};

verus! {

/// Entry `k + 1` of a recorded run is one step after entry `k`.
pub open spec fn step_at<B: Bus>(cpus: Seq<CpuView>, buses: Seq<B>, k: int) -> bool {
    step_rel(cpus[k], buses[k], cpus[k + 1], buses[k + 1])
}

/// `cpus` and `buses` record a run: the processor and bus before each step
/// and after the last.
pub open spec fn is_run<B: Bus>(cpus: Seq<CpuView>, buses: Seq<B>) -> bool {
    &&& cpus.len() >= 1
    &&& buses.len() == cpus.len()
    &&& forall|k: int| 0 <= k < cpus.len() - 1 ==> #[trigger] step_at(cpus, buses, k)
}

/// A whole system: a processor and the bus it drives.
pub struct Msc4<B: Bus> {
    cpu: Cpu,
    bus: B,
}

impl<B: Bus> Msc4<B> {
    /// The processor.
    pub closed spec fn spec_cpu(&self) -> Cpu {
        self.cpu
    }

    /// The bus.
    pub closed spec fn spec_bus(&self) -> B {
        self.bus
    }

    /// A well-formed processor on a well-formed bus.
    pub open spec fn wf(&self) -> bool {
        self.spec_cpu()@.wf() && bus_ok(self.spec_bus().rom(), self.spec_bus().ram())
    }

    /// A freshly reset processor on `bus`.
    pub fn new(bus: B) -> (r: Self)
        requires
            bus_ok(bus.rom(), bus.ram()),
        ensures
            r.spec_cpu()@ == CpuView::zeroed(),
            r.spec_bus() == bus,
            r.wf(),
    {
        Msc4 { cpu: Cpu::new(), bus }
    }

    /// The processor.
    pub fn cpu(&self) -> (r: &Cpu)
        ensures
            *r == self.spec_cpu(),
    {
        &self.cpu
    }

    /// The bus.
    pub fn bus(&self) -> (r: &B)
        ensures
            *r == self.spec_bus(),
    {
        &self.bus
    }

    /// Performs exactly `n` steps. Program memory is never changed.
    pub fn run_steps(&mut self, n: usize)
        requires
            old(self).wf(),
        ensures
            final(self).wf(),
            final(self).spec_bus().rom() == old(self).spec_bus().rom(),
            exists|cpus: Seq<CpuView>, buses: Seq<B>|
                {
                    &&& is_run(cpus, buses)
                    &&& cpus.len() == n + 1
                    &&& cpus[0] == old(self).spec_cpu()@
                    &&& buses[0] == old(self).spec_bus()
                    &&& cpus[n as int] == final(self).spec_cpu()@
                    &&& buses[n as int] == final(self).spec_bus()
                },
    {
        let ghost rom0 = self.bus.rom();
        let ghost mut cpus: Seq<CpuView> = seq![self.cpu@];
        let ghost mut buses: Seq<B> = seq![self.bus];
        let mut i: usize = 0;
        while i < n
            invariant
                i <= n,
                self.wf(),
                self.bus.rom() == rom0,
                is_run(cpus, buses),
                cpus.len() == i + 1,
                cpus[0] == old(self).spec_cpu()@,
                buses[0] == old(self).spec_bus(),
                cpus[i as int] == self.cpu@,
                buses[i as int] == self.bus,
            decreases n - i,
        {
            let ghost c0 = self.cpu@;
            let ghost b0 = self.bus;
            self.cpu.step(&mut self.bus);
            proof {
                let nc = cpus.push(self.cpu@);
                let nb = buses.push(self.bus);
                assert forall|k: int| 0 <= k < nc.len() - 1 implies #[trigger] step_at(nc, nb, k) by {
                    if k < i {
                        assert(step_at(cpus, buses, k));
                        assert(nc[k] == cpus[k] && nc[k + 1] == cpus[k + 1]);
                        assert(nb[k] == buses[k] && nb[k + 1] == buses[k + 1]);
                    } else {
                        assert(nc[k] == c0 && nb[k] == b0);
                    }
                }
                cpus = nc;
                buses = nb;
            }
            i = i + 1;
        }
    }
}

} // verus!
