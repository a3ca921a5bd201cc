//! Locates a named header file in a modelled directory tree, either through
//! the include directories reported by a package-metadata probe or by a
//! depth-first scan of an ordered list of search-path directories.

pub mod laws;
pub mod resolver;
pub mod scanner;

pub use resolver::locate_header_from_package;
pub use resolver::locate_header_with_path;
pub use resolver::Package;
pub use resolver::ProbeOutcome;
pub use scanner::find_it;
pub use scanner::find_it_in;
pub use scanner::FsTree;
