use vstd::prelude::*;
use crate::flags::{OptimizationFlags, OptimizationMode, enforced, flags_consistent};
use crate::frame::{frame_after, next_frame};
use crate::text::{join, push_text};

verus! {

/// One entry of the build configuration list.
#[derive(Clone, Debug)]
pub struct ConfigOption {
    pub name: String,
    pub description: String,
    pub enabled: bool,
    pub available: bool,
    pub detail: String,
}

/// Index of the mode selector, the target-CPU switch, the linker and rewrite
/// knobs, and the remaining switches, in list order.
pub const OPT_MODE: usize = 0;
pub const OPT_CPU: usize = 1;
pub const OPT_MOLD: usize = 2;
pub const OPT_BOLT: usize = 3;
pub const OPT_PROFILE: usize = 4;
pub const OPT_STRIP: usize = 5;
pub const OPT_TESTS: usize = 6;
pub const OPT_ALIAS: usize = 7;
pub const OPTION_COUNT: usize = 8;

/// The linker and rewrite switches after syncing with the mode: the mode
/// decides them, except in custom mode, where the user's choice stands; the
/// rewrite always wins over the fast linker.
pub open spec fn synced(mode: OptimizationMode, has_mold: bool, has_bolt: bool, mold: bool, bolt: bool) -> (bool, bool) {
    let (m, b) = match mode {
        OptimizationMode::BuildFast => (has_mold, false),
        OptimizationMode::RunFast => (false, has_bolt),
        OptimizationMode::Custom => (mold, bolt),
    };
    let m2 = m && !b;
    if mode == OptimizationMode::Custom { (m2, b) } else { (m2 && has_mold, b && has_bolt) }
}

/// The mode that follows `mode` in the selector's cycle.
pub open spec fn next_mode(mode: OptimizationMode, has_bolt: bool) -> OptimizationMode {
    match mode {
        OptimizationMode::BuildFast => if has_bolt { OptimizationMode::RunFast } else { OptimizationMode::Custom },
        OptimizationMode::RunFast => OptimizationMode::Custom,
        OptimizationMode::Custom => OptimizationMode::BuildFast,
    }
}

/// The mode a screen starts in: the rewrite if its tool is there, else the
/// fast linker if it is there, else custom.
pub open spec fn initial_mode(has_mold: bool, has_bolt: bool) -> OptimizationMode {
    if has_bolt { OptimizationMode::RunFast } else if has_mold { OptimizationMode::BuildFast } else { OptimizationMode::Custom }
}

fn option(name: &str, description: &str, enabled: bool, available: bool, detail: &str) -> (r: ConfigOption)
    ensures
        r.enabled == enabled,
        r.available == available,
{
    ConfigOption {
        name: String::from_str(name),
        description: String::from_str(description),
        enabled,
        available,
        detail: String::from_str(detail),
    }
}

/// Build configuration screen: CPU target, linker, rewrite and other options.
#[derive(Debug)]
pub struct BuildConfigScreen {
    frame: u64,
    cpu_target: String,
    cpu_detected_by: String,
    optimization_mode: OptimizationMode,
    has_mold: bool,
    has_bolt: bool,
    options: Vec<ConfigOption>,
    cursor: usize,
}

impl BuildConfigScreen {
    pub closed spec fn spec_frame(&self) -> u64 {
        self.frame
    }

    pub closed spec fn spec_mode(&self) -> OptimizationMode {
        self.optimization_mode
    }

    pub closed spec fn spec_has_mold(&self) -> bool {
        self.has_mold
    }

    pub closed spec fn spec_has_bolt(&self) -> bool {
        self.has_bolt
    }

    pub closed spec fn spec_cursor(&self) -> usize {
        self.cursor
    }

    pub closed spec fn spec_cpu_target(&self) -> Seq<char> {
        self.cpu_target@
    }

    /// Whether the option at `i` is switched on.
    pub closed spec fn spec_enabled(&self, i: int) -> bool {
        self.options@[i].enabled
    }

    pub closed spec fn spec_available(&self, i: int) -> bool {
        self.options@[i].available
    }

    /// The fixed option list; switches whose tool is missing stay off, and
    /// the linker and rewrite switches agree with the mode.
    pub closed spec fn wf(&self) -> bool {
        &&& self.options@.len() == OPTION_COUNT
        &&& self.cursor < OPTION_COUNT
        &&& (self.options@[2].enabled ==> self.has_mold)
        &&& (self.options@[3].enabled ==> self.has_bolt)
        &&& !(self.options@[2].enabled && self.options@[3].enabled)
        &&& (self.options@[2].available ==> self.has_mold)
        &&& (self.options@[3].available ==> self.has_bolt)
        &&& (synced(self.optimization_mode, self.has_mold, self.has_bolt, self.options@[2].enabled, self.options@[3].enabled)
            == (self.options@[2].enabled, self.options@[3].enabled))
        &&& self.options@[1].available && self.options@[4].available && self.options@[5].available
        &&& self.options@[6].available && self.options@[7].available
    }

    /// The linker and rewrite switches are never on together, and neither is
    /// on unless its tool is available.
    pub open spec fn switches_ok(&self) -> bool {
        &&& !(self.spec_enabled(2) && self.spec_enabled(3))
        &&& (self.spec_enabled(2) ==> self.spec_has_mold())
        &&& (self.spec_enabled(3) ==> self.spec_has_bolt())
    }

    /// Whether `k` is one of the plain on/off options.
    pub open spec fn is_plain_option(k: int) -> bool {
        k == 1 || (4 <= k < 8)
    }

    pub fn new(cpu_target: String, cpu_detected_by: String, has_mold: bool, has_bolt: bool) -> (r: Self)
        ensures
            r.wf(),
            r.spec_mode() == initial_mode(has_mold, has_bolt),
            r.spec_has_mold() == has_mold,
            r.spec_has_bolt() == has_bolt,
            r.spec_cursor() == 0,
            r.spec_frame() == 0,
            r.spec_cpu_target() == cpu_target@,
            (r.spec_enabled(2), r.spec_enabled(3)) == synced(initial_mode(has_mold, has_bolt), has_mold, has_bolt, false, false),
            r.spec_enabled(1) && r.spec_enabled(4) && r.spec_enabled(5) && r.spec_enabled(6) && r.spec_enabled(7),
            r.switches_ok(),
            forall|k: int| Self::is_plain_option(k) ==> r.spec_enabled(k) && r.spec_available(k),
    {
        let optimization_mode = if has_bolt {
            OptimizationMode::RunFast
        } else if has_mold {
            OptimizationMode::BuildFast
        } else {
            OptimizationMode::Custom
        };
        let mut options: Vec<ConfigOption> = Vec::new();
        options.push(option("Optimization mode", "Build fast (mold) vs run fast (BOLT) vs custom", true, true, ""));
        options.push(option("Optimize for CPU", "Use -C target-cpu=native (best runtime performance)", true, true, "recommended"));
        options.push(option("Use mold linker", "Faster linking (custom mode only)", false, false,
            if has_mold { "found" } else { "not installed" }));
        options.push(option("Use BOLT optimization", "Post-link binary optimization (custom mode only)", false, false,
            if has_bolt { "found" } else { "not installed" }));
        options.push(option("Use xtreme profile", "Fat LTO + 1 codegen unit (slower build, faster runtime)", true, true, "recommended"));
        options.push(option("Strip symbols", "Remove debug symbols for smaller binary", true, true, "~50% size reduction"));
        options.push(option("Run verification tests", "cargo check + core library tests", true, true, "recommended"));
        options.push(option("Set up shell alias", "Add/update alias in your shell rc file", true, true, "recommended"));
        let mut s = BuildConfigScreen {
            frame: 0,
            cpu_target,
            cpu_detected_by,
            optimization_mode,
            has_mold,
            has_bolt,
            options,
            cursor: 0,
        };
        s.sync_from_mode();
        s
    }

    fn set_option(&mut self, i: usize, enabled: bool, available: bool, detail: &str)
        requires
            i < old(self).options@.len(),
        ensures
            final(self).options@.len() == old(self).options@.len(),
            final(self).options@[i as int].enabled == enabled,
            final(self).options@[i as int].available == available,
            forall|k: int| 0 <= k < old(self).options@.len() && k != i ==> final(self).options@[k] == old(self).options@[k],
            final(self).frame == old(self).frame,
            final(self).cursor == old(self).cursor,
            final(self).optimization_mode == old(self).optimization_mode,
            final(self).has_mold == old(self).has_mold,
            final(self).has_bolt == old(self).has_bolt,
            final(self).cpu_target == old(self).cpu_target,
    {
        let mut o = self.options.remove(i);
        o.enabled = enabled;
        o.available = available;
        o.detail = String::from_str(detail);
        self.options.insert(i, o);
    }

    fn set_detail(&mut self, i: usize, detail: String)
        requires
            i < old(self).options@.len(),
        ensures
            final(self).options@.len() == old(self).options@.len(),
            final(self).options@[i as int].enabled == old(self).options@[i as int].enabled,
            final(self).options@[i as int].available == old(self).options@[i as int].available,
            forall|k: int| 0 <= k < old(self).options@.len() && k != i ==> final(self).options@[k] == old(self).options@[k],
            final(self).frame == old(self).frame,
            final(self).cursor == old(self).cursor,
            final(self).optimization_mode == old(self).optimization_mode,
            final(self).has_mold == old(self).has_mold,
            final(self).has_bolt == old(self).has_bolt,
            final(self).cpu_target == old(self).cpu_target,
    {
        let mut o = self.options.remove(i);
        o.detail = detail;
        self.options.insert(i, o);
    }

    /// Brings the linker and rewrite switches in line with the mode and the
    /// tools that are available.
    fn sync_from_mode(&mut self)
        requires
            old(self).options@.len() == OPTION_COUNT,
            old(self).cursor < OPTION_COUNT,
            old(self).optimization_mode == OptimizationMode::Custom ==>
                (old(self).options@[2].enabled ==> old(self).has_mold) && (old(self).options@[3].enabled ==> old(self).has_bolt),
            old(self).options@[1].available && old(self).options@[4].available && old(self).options@[5].available,
            old(self).options@[6].available && old(self).options@[7].available,
        ensures
            final(self).wf(),
            (final(self).options@[2].enabled, final(self).options@[3].enabled) == synced(old(self).optimization_mode,
                old(self).has_mold, old(self).has_bolt, old(self).options@[2].enabled, old(self).options@[3].enabled),
            forall|k: int| 0 <= k < OPTION_COUNT && k != 0 && k != 2 && k != 3 ==> final(self).options@[k] == old(self).options@[k],
            final(self).frame == old(self).frame,
            final(self).cursor == old(self).cursor,
            final(self).optimization_mode == old(self).optimization_mode,
            final(self).has_mold == old(self).has_mold,
            final(self).has_bolt == old(self).has_bolt,
            final(self).cpu_target == old(self).cpu_target,
    {
        let (mut use_mold, use_bolt) = match self.optimization_mode {
            OptimizationMode::BuildFast => (self.has_mold, false),
            OptimizationMode::RunFast => (false, self.has_bolt),
            OptimizationMode::Custom => (self.options[2].enabled, self.options[3].enabled),
        };
        if use_bolt {
            use_mold = false;
        }
        let label = match self.optimization_mode {
            OptimizationMode::BuildFast => "Build fast (mold)",
            OptimizationMode::RunFast => "Run fast (BOLT)",
            OptimizationMode::Custom => "Custom",
        };
        let custom = self.optimization_mode == OptimizationMode::Custom;
        let mode_detail = if custom {
            let mut d = join(label, "  mold:");
            push_text(&mut d, if use_mold { "on" } else { "off" });
            push_text(&mut d, "  BOLT:");
            push_text(&mut d, if use_bolt { "on" } else { "off" });
            d
        } else {
            String::from_str(label)
        };
        self.set_detail(OPT_MODE, mode_detail);
        let mold_detail = if !self.has_mold { "not installed" } else if !custom { "managed by mode" } else { "found" };
        let mold_on = if custom { use_mold } else { use_mold && self.has_mold };
        self.set_option(OPT_MOLD, mold_on, custom && self.has_mold, mold_detail);
        let bolt_detail = if !self.has_bolt { "not installed" } else if !custom { "managed by mode" } else { "found" };
        let bolt_on = if custom { use_bolt } else { use_bolt && self.has_bolt };
        self.set_option(OPT_BOLT, bolt_on, custom && self.has_bolt, bolt_detail);
    }

    pub fn tick(&mut self)
        requires
            old(self).wf(),
        ensures
            final(self).wf(),
            final(self).spec_frame() == frame_after(old(self).spec_frame()),
            final(self).spec_mode() == old(self).spec_mode(),
            final(self).spec_cursor() == old(self).spec_cursor(),
            forall|k: int| 0 <= k < OPTION_COUNT ==> final(self).spec_enabled(k) == old(self).spec_enabled(k),
            final(self).switches_ok(),
            final(self).spec_has_mold() == old(self).spec_has_mold(),
            final(self).spec_has_bolt() == old(self).spec_has_bolt(),
            final(self).spec_cpu_target() == old(self).spec_cpu_target(),
    {
        self.frame = next_frame(self.frame);
    }

    pub fn select_next(&mut self)
        requires
            old(self).wf(),
        ensures
            final(self).wf(),
            final(self).spec_cursor() == if old(self).spec_cursor() + 1 < OPTION_COUNT {
                (old(self).spec_cursor() + 1) as usize
            } else {
                old(self).spec_cursor()
            },
            final(self).spec_mode() == old(self).spec_mode(),
            forall|k: int| 0 <= k < OPTION_COUNT ==> final(self).spec_enabled(k) == old(self).spec_enabled(k),
            final(self).switches_ok(),
            final(self).spec_has_mold() == old(self).spec_has_mold(),
            final(self).spec_has_bolt() == old(self).spec_has_bolt(),
            final(self).spec_cpu_target() == old(self).spec_cpu_target(),
    {
        if self.cursor + 1 < self.options.len() {
            self.cursor = self.cursor + 1;
        }
    }

    pub fn select_prev(&mut self)
        requires
            old(self).wf(),
        ensures
            final(self).wf(),
            final(self).spec_cursor() == if old(self).spec_cursor() > 0 { (old(self).spec_cursor() - 1) as usize } else { 0 },
            final(self).spec_mode() == old(self).spec_mode(),
            forall|k: int| 0 <= k < OPTION_COUNT ==> final(self).spec_enabled(k) == old(self).spec_enabled(k),
            final(self).switches_ok(),
            final(self).spec_has_mold() == old(self).spec_has_mold(),
            final(self).spec_has_bolt() == old(self).spec_has_bolt(),
            final(self).spec_cpu_target() == old(self).spec_cpu_target(),
    {
        if self.cursor > 0 {
            self.cursor = self.cursor - 1;
        }
    }

    /// On the mode selector, moves to the next mode; on another option,
    /// flips it if it is available. Either way the linker and rewrite
    /// switches are then synced with the mode.
    pub fn toggle_current(&mut self)
        requires
            old(self).wf(),
        ensures
            final(self).wf(),
            final(self).spec_cursor() == old(self).spec_cursor(),
            old(self).spec_cursor() == 0 ==> final(self).spec_mode() == next_mode(old(self).spec_mode(), old(self).spec_has_bolt())
                && (final(self).spec_enabled(2), final(self).spec_enabled(3)) == synced(final(self).spec_mode(),
                    old(self).spec_has_mold(), old(self).spec_has_bolt(), old(self).spec_enabled(2), old(self).spec_enabled(3)),
            old(self).spec_cursor() != 0 ==> final(self).spec_mode() == old(self).spec_mode(),
            old(self).spec_cursor() != 0 && old(self).spec_cursor() != 2 && old(self).spec_cursor() != 3 ==>
                final(self).spec_enabled(old(self).spec_cursor() as int) == (old(self).spec_enabled(old(self).spec_cursor() as int)
                    != old(self).spec_available(old(self).spec_cursor() as int)),
            old(self).spec_cursor() == 2 ==> (final(self).spec_enabled(2), final(self).spec_enabled(3)) == synced(old(self).spec_mode(),
                old(self).spec_has_mold(), old(self).spec_has_bolt(), old(self).spec_enabled(2) != old(self).spec_available(2),
                old(self).spec_enabled(3)),
            old(self).spec_cursor() == 3 ==> (final(self).spec_enabled(2), final(self).spec_enabled(3)) == synced(old(self).spec_mode(),
                old(self).spec_has_mold(), old(self).spec_has_bolt(), old(self).spec_enabled(2),
                old(self).spec_enabled(3) != old(self).spec_available(3)),
            final(self).switches_ok(),
            final(self).spec_has_mold() == old(self).spec_has_mold(),
            final(self).spec_has_bolt() == old(self).spec_has_bolt(),
            final(self).spec_cpu_target() == old(self).spec_cpu_target(),
            !Self::is_plain_option(old(self).spec_cursor() as int) ==> forall|k: int| Self::is_plain_option(k) ==>
                final(self).spec_enabled(k) == old(self).spec_enabled(k),
            Self::is_plain_option(old(self).spec_cursor() as int) ==> final(self).spec_mode() == old(self).spec_mode()
                && final(self).spec_enabled(old(self).spec_cursor() as int) == !old(self).spec_enabled(old(self).spec_cursor() as int)
                && final(self).spec_enabled(2) == old(self).spec_enabled(2) && final(self).spec_enabled(3) == old(self).spec_enabled(3)
                && forall|k: int| Self::is_plain_option(k) && k != old(self).spec_cursor() ==>
                    final(self).spec_enabled(k) == old(self).spec_enabled(k),
    {
        if self.cursor == 0 {
            self.optimization_mode = match self.optimization_mode {
                OptimizationMode::BuildFast => if self.has_bolt { OptimizationMode::RunFast } else { OptimizationMode::Custom },
                OptimizationMode::RunFast => OptimizationMode::Custom,
                OptimizationMode::Custom => OptimizationMode::BuildFast,
            };
            self.sync_from_mode();
            return;
        }
        let i = self.cursor;
        if self.options[i].available {
            let en = !self.options[i].enabled;
            let mut o = self.options.remove(i);
            o.enabled = en;
            self.options.insert(i, o);
        }
        self.sync_from_mode();
    }

    pub fn cpu_target(&self) -> (r: &str)
        ensures
            r@ == self.spec_cpu_target(),
    {
        self.cpu_target.as_str()
    }

    pub fn optimization_mode(&self) -> (r: OptimizationMode)
        ensures
            r == self.spec_mode(),
    {
        self.optimization_mode
    }

    /// The linker and rewrite knobs, with the invariant enforced. Neither is
    /// on unless its tool is available.
    pub fn optimization_flags(&self) -> (r: OptimizationFlags)
        requires
            self.wf(),
        ensures
            r == enforced(OptimizationFlags { use_mold: self.spec_enabled(2), use_bolt: self.spec_enabled(3) }),
            flags_consistent(r),
            r.use_mold ==> self.spec_has_mold(),
            r.use_bolt ==> self.spec_has_bolt(),
    {
        let mut flags = OptimizationFlags { use_mold: self.options[2].enabled, use_bolt: self.options[3].enabled };
        flags.enforce_invariants();
        flags
    }

    fn enabled(&self, i: usize) -> (r: bool)
        requires
            self.wf(),
            i < OPTION_COUNT,
        ensures
            r == self.spec_enabled(i as int),
    {
        self.options[i].enabled
    }

    pub fn optimize_cpu(&self) -> (r: bool)
        requires
            self.wf(),
        ensures
            r == self.spec_enabled(1),
    {
        self.enabled(OPT_CPU)
    }

    pub fn use_mold(&self) -> (r: bool)
        requires
            self.wf(),
        ensures
            r == self.spec_enabled(2),
    {
        self.enabled(OPT_MOLD)
    }

    pub fn use_bolt(&self) -> (r: bool)
        requires
            self.wf(),
        ensures
            r == self.spec_enabled(3),
    {
        self.enabled(OPT_BOLT)
    }

    pub fn use_xtreme_profile(&self) -> (r: bool)
        requires
            self.wf(),
        ensures
            r == self.spec_enabled(4),
    {
        self.enabled(OPT_PROFILE)
    }

    pub fn strip_symbols(&self) -> (r: bool)
        requires
            self.wf(),
        ensures
            r == self.spec_enabled(5),
    {
        self.enabled(OPT_STRIP)
    }

    pub fn run_tests(&self) -> (r: bool)
        requires
            self.wf(),
        ensures
            r == self.spec_enabled(6),
    {
        self.enabled(OPT_TESTS)
    }

    pub fn setup_alias(&self) -> (r: bool)
        requires
            self.wf(),
        ensures
            r == self.spec_enabled(7),
    {
        self.enabled(OPT_ALIAS)
    }

    pub fn frame(&self) -> (r: u64)
        ensures
            r == self.spec_frame(),
    {
        self.frame
    }
}

} // verus!
