//! The parts of the benchmarked program's configuration document that hold
//! no floating-point values. The orchestration itself never looks inside the
//! document beyond its `timeout` entry.
use vstd::prelude::*;
use std::collections::HashMap;

verus! {

/// CPU architecture of the emulated binary.
#[allow(non_camel_case_types)]
#[derive(Clone, Copy, Debug, PartialEq, Eq, Structural)]
pub enum Arch {
    ARM,
    ARM64,
    MIPS,
    X86,
    PPC,
    SPARC,
    M68K,
}

impl Default for Arch {
    fn default() -> (r: Self)
        ensures
            r == Arch::X86,
    {
        Arch::X86
    }
}

/// Emulation mode of the binary.
#[allow(non_camel_case_types)]
#[derive(Clone, Copy, Debug, PartialEq, Eq, Structural)]
pub enum Mode {
    LITTLE_ENDIAN,
    MODE_16,
    MODE_32,
    MODE_64,
    THUMB,
    MCLASS,
    V8,
    BIG_ENDIAN,
}

impl Default for Mode {
    fn default() -> (r: Self)
        ensures
            r == Mode::MODE_32,
    {
        Mode::MODE_32
    }
}

/// Where input data is read from.
pub struct DataConfig {
    pub path: String,
}

/// Which kind of evolution the program runs.
#[derive(Clone, Copy, Debug, PartialEq, Eq, Structural)]
pub enum Job {
    Roper,
    Hello,
    LinearGp,
}

/// What the program records while it runs.
pub struct ObserverConfig {
    pub dump_population: bool,
    pub dump_soup: bool,
    pub window_size: usize,
    pub report_every: Option<usize>,
    pub dump_every: Option<usize>,
    pub full_data_directory: Option<String>,
    pub data_directory: String,
    pub population_name: Option<String>,
}

/// Settings of the string-matching job.
pub struct HelloConfig {
    pub target: String,
}

/// Settings of the linear genetic programming job.
pub struct LinearGpConfig {
    pub max_steps: usize,
    pub num_registers: Option<usize>,
    pub return_registers: Option<usize>,
}

/// Alternative values of one register, and how often it is dereferenced.
pub struct RegisterValue {
    pub vals: Vec<u64>,
    pub deref: usize,
}

/// Expected register values, by register name.
pub struct RegisterPattern(pub HashMap<String, RegisterValue>);

/// Settings of the return-oriented programming job.
pub struct RoperConfig {
    pub use_push: bool,
    pub gadget_file: Option<String>,
    pub output_registers: Vec<String>,
    pub input_registers: Vec<String>,
    pub randomize_registers: bool,
    pub register_pattern_file: Option<String>,
    pub parsed_register_patterns: Vec<RegisterPattern>,
    pub soup: Option<Vec<u64>>,
    pub soup_size: Option<usize>,
    pub arch: Arch,
    pub mode: Mode,
    pub num_workers: usize,
    pub num_emulators: usize,
    pub wait_limit: u64,
    pub max_emu_steps: Option<usize>,
    pub millisecond_timeout: Option<u64>,
    pub record_basic_blocks: bool,
    pub record_memory_writes: bool,
    pub emulator_stack_size: usize,
    pub binary_path: String,
    pub ld_paths: Option<Vec<String>>,
    pub bad_bytes: Option<HashMap<String, u8>>,
    pub memory_pattern: Option<Vec<u8>>,
    pub break_on_calls: bool,
    pub monitor_stack_writes: bool,
}

impl Default for RoperConfig {
    fn default() -> (r: Self)
        ensures
            !r.use_push,
            r.gadget_file is None,
            r.output_registers@.len() == 0,
            r.input_registers@.len() == 0,
            !r.randomize_registers,
            r.register_pattern_file is None,
            r.parsed_register_patterns@.len() == 0,
            r.soup is None,
            r.soup_size is None,
            r.arch == Arch::X86,
            r.mode == Mode::MODE_64,
            r.memory_pattern is None,
            r.num_workers == 8,
            r.num_emulators == 8,
            r.wait_limit == 500,
            r.max_emu_steps == Some(0x10_000usize),
            r.millisecond_timeout == Some(500u64),
            !r.record_basic_blocks,
            !r.record_memory_writes,
            r.emulator_stack_size == 0x1000,
            r.binary_path@ == "/bin/sh"@,
            r.ld_paths is None,
            r.bad_bytes is None,
            !r.break_on_calls,
            !r.monitor_stack_writes,
    {
        RoperConfig {
            use_push: false,
            gadget_file: None,
            output_registers: Vec::new(),
            input_registers: Vec::new(),
            randomize_registers: false,
            register_pattern_file: None,
            parsed_register_patterns: Vec::new(),
            soup: None,
            soup_size: None,
            arch: Arch::X86,
            mode: Mode::MODE_64,
            memory_pattern: None,
            num_workers: 8,
            num_emulators: 8,
            wait_limit: 500,
            max_emu_steps: Some(0x10_000),
            millisecond_timeout: Some(500),
            record_basic_blocks: false,
            record_memory_writes: false,
            emulator_stack_size: 0x1000,
            binary_path: String::from_str("/bin/sh"),
            ld_paths: None,
            bad_bytes: None,
            break_on_calls: false,
            monitor_stack_writes: false,
        }
    }
}

/// One input/output case of a classification task.
pub struct ClassificationProblem {
    pub input: Vec<i32>,
    pub output: i32,
    pub tag: u64,
}

/// How parents are chosen.
#[derive(Clone, Copy, Debug, PartialEq, Eq, Structural)]
pub enum Selection {
    Tournament,
    Roulette,
    Metropolis,
    Lexicase,
}

/// What a candidate is judged against.
pub enum Problem {
    Classification(ClassificationProblem),
    RegisterSpecification(RegisterPattern),
    MemoryPattern(Vec<u8>),
}

} // verus!
