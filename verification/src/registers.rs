use vstd::prelude::*;

verus! {

/// The clock-control register file, exposed as typed read/modify/write
/// operations on named bit-fields.
///
/// Control fields are owned by software; the ready and switch-status fields
/// are owned by the hardware and change only at the synchronization points
/// modelled by the `wait_*` methods. On hardware each such point is an
/// unbounded busy-wait poll of the status field, with no timeout: an
/// oscillator that never starts hangs configuration permanently, a fatal
/// board-level condition rather than a recoverable error. The model relies
/// on the hardware's own startup guarantee and lets the status settle in
/// one step.
#[derive(Clone, Copy, PartialEq, Eq, Structural, Debug)]
pub struct RegisterBlock {
    /// Oscillator control: internal oscillator enable.
    pub hsion: bool,
    /// Oscillator control: external oscillator enable.
    pub hseon: bool,
    /// Oscillator control: PLL enable.
    pub pllon: bool,
    /// Oscillator status: internal oscillator ready (hardware-owned).
    pub hsirdy: bool,
    /// Oscillator status: external oscillator ready (hardware-owned).
    pub hserdy: bool,
    /// Oscillator status: PLL locked (hardware-owned).
    pub pllrdy: bool,
    /// PLL configuration: input source select (2 bits).
    pub pllsrc: u8,
    /// PLL configuration: input divider M, stored as M - 1 (4 bits).
    pub pllm: u8,
    /// PLL configuration: feedback multiplier N.
    pub plln: u8,
    /// PLL configuration: R-tap divider code (2 bits).
    pub pllr: u8,
    /// PLL configuration: R-tap enable.
    pub pllren: bool,
    /// PLL configuration: Q-tap divider code (2 bits).
    pub pllq: u8,
    /// PLL configuration: Q-tap enable.
    pub pllqen: bool,
    /// System clock mux: requested source select (2 bits).
    pub sw: u8,
    /// AHB prescaler code (4 bits).
    pub hpre: u8,
    /// First APB prescaler code (3 bits).
    pub ppre1: u8,
    /// Second APB prescaler code (3 bits).
    pub ppre2: u8,
    /// System clock mux: confirmed source select (hardware-owned, 2 bits).
    pub sws: u8,
    /// Peripheral clock-select mux for the fixed 48 MHz tap (2 bits).
    pub clk48sel: u8,
    /// Power control: low-power-run enable.
    pub lpr: bool,
}

impl RegisterBlock {
    /// The register file in its reset state: the chip boots on the internal
    /// oscillator, so it is enabled, ready and selected; everything else is
    /// off.
    pub fn new() -> (r: RegisterBlock)
        ensures
            (r == RegisterBlock {
                hsion: true,
                hseon: false,
                pllon: false,
                hsirdy: true,
                hserdy: false,
                pllrdy: false,
                pllsrc: 0,
                pllm: 0,
                plln: 0,
                pllr: 0,
                pllren: false,
                pllq: 0,
                pllqen: false,
                sw: 1,
                hpre: 0,
                ppre1: 0,
                ppre2: 0,
                sws: 1,
                clk48sel: 0,
                lpr: false,
            }),
    {
        RegisterBlock {
            hsion: true,
            hseon: false,
            pllon: false,
            hsirdy: true,
            hserdy: false,
            pllrdy: false,
            pllsrc: 0,
            pllm: 0,
            plln: 0,
            pllr: 0,
            pllren: false,
            pllq: 0,
            pllqen: false,
            sw: 1,
            hpre: 0,
            ppre1: 0,
            ppre2: 0,
            sws: 1,
            clk48sel: 0,
            lpr: false,
        }
    }

    /// Set the internal oscillator's enable bit.
    pub fn set_hsion(&mut self, on: bool)
        ensures
            (*final(self) == RegisterBlock { hsion: on, ..*old(self) }),
    {
        self.hsion = on;
    }

    /// Set the external oscillator's enable bit.
    pub fn set_hseon(&mut self, on: bool)
        ensures
            (*final(self) == RegisterBlock { hseon: on, ..*old(self) }),
    {
        self.hseon = on;
    }

    /// Set the PLL's enable bit.
    pub fn set_pllon(&mut self, on: bool)
        ensures
            (*final(self) == RegisterBlock { pllon: on, ..*old(self) }),
    {
        self.pllon = on;
    }

    /// Busy-wait until the enabled internal oscillator reports ready.
    pub fn wait_hsi_ready(&mut self)
        requires
            old(self).hsion,
        ensures
            (*final(self) == RegisterBlock { hsirdy: true, ..*old(self) }),
    {
        self.hsirdy = true;
    }

    /// Busy-wait until the enabled external oscillator reports ready.
    pub fn wait_hse_ready(&mut self)
        requires
            old(self).hseon,
        ensures
            (*final(self) == RegisterBlock { hserdy: true, ..*old(self) }),
    {
        self.hserdy = true;
    }

    /// Busy-wait until the enabled PLL reports lock.
    pub fn wait_pll_ready(&mut self)
        requires
            old(self).pllon,
        ensures
            (*final(self) == RegisterBlock { pllrdy: true, ..*old(self) }),
    {
        self.pllrdy = true;
    }

    /// Write the whole PLL configuration register in one operation.
    pub fn pllcfgr_write(
        &mut self,
        pllsrc: u8,
        pllm: u8,
        plln: u8,
        pllr: u8,
        pllren: bool,
        pllq: u8,
        pllqen: bool,
    )
        requires
            pllsrc < 4,
            pllm < 16,
            pllr < 4,
            pllq < 4,
        ensures
            (*final(self) == RegisterBlock {
                pllsrc,
                pllm,
                plln,
                pllr,
                pllren,
                pllq,
                pllqen,
                ..*old(self)
            }),
    {
        self.pllsrc = pllsrc;
        self.pllm = pllm;
        self.plln = plln;
        self.pllr = pllr;
        self.pllren = pllren;
        self.pllq = pllq;
        self.pllqen = pllqen;
    }

    /// Commit the source selection and the three prescalers to the system
    /// clock mux register in one write. The confirmed-selection field is
    /// hardware-owned and untouched.
    pub fn cfgr_modify(&mut self, sw: u8, hpre: u8, ppre1: u8, ppre2: u8)
        requires
            sw < 4,
            hpre < 16,
            ppre1 < 8,
            ppre2 < 8,
        ensures
            (*final(self) == RegisterBlock { sw, hpre, ppre1, ppre2, ..*old(self) }),
    {
        self.sw = sw;
        self.hpre = hpre;
        self.ppre1 = ppre1;
        self.ppre2 = ppre2;
    }

    /// Busy-wait until the status field confirms the requested source
    /// selection.
    pub fn wait_switch(&mut self)
        ensures
            (*final(self) == RegisterBlock { sws: old(self).sw, ..*old(self) }),
    {
        self.sws = self.sw;
    }

    /// Route the peripheral clock-select mux for the fixed 48 MHz tap.
    pub fn set_clk48sel(&mut self, sel: u8)
        requires
            sel < 4,
        ensures
            (*final(self) == RegisterBlock { clk48sel: sel, ..*old(self) }),
    {
        self.clk48sel = sel;
    }

    /// Set the low-power-run bit in the power-control register.
    pub fn set_lpr(&mut self, on: bool)
        ensures
            (*final(self) == RegisterBlock { lpr: on, ..*old(self) }),
    {
        self.lpr = on;
    }
}

} // verus!
