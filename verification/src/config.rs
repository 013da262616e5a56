//! The project settings that the viewer keeps and saves.
use vstd::prelude::*;

verus! {

/// How to reach the GDB server of the emulator.
pub struct GdbConfig {
    pub address: String,
}

/// Where the project's C++ types are found and how they are laid out.
pub struct TypesConfig {
    pub project_root: String,
    pub include_paths: Vec<String>,
    pub ignore_paths: Vec<String>,
    pub short_enums: bool,
}

/// All project settings.
pub struct Config {
    pub gdb: GdbConfig,
    pub types: TypesConfig,
}

impl Config {
    /// Settings with every text empty, no paths and long enums.
    pub open spec fn is_blank(self) -> bool {
        &&& self.gdb.address@ == Seq::<char>::empty()
        &&& self.types.project_root@ == Seq::<char>::empty()
        &&& self.types.include_paths@ == Seq::<String>::empty()
        &&& self.types.ignore_paths@ == Seq::<String>::empty()
        &&& !self.types.short_enums
    }

    /// Blank settings, for a project not yet configured.
    pub fn new() -> (config: Config)
        ensures
            config.is_blank(),
    {
        Config {
            gdb: GdbConfig { address: String::new() },
            types: TypesConfig {
                project_root: String::new(),
                include_paths: Vec::new(),
                ignore_paths: Vec::new(),
                short_enums: false,
            },
        }
    }
}

} // verus!
