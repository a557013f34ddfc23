//! Bootstrap layer of a desktop webview application: decides, once per
//! process, where persistent application data lives (portable mode next to
//! the executable, or the OS-standard per-user location), and threads that
//! decision into the window's storage configuration and a query accessor.

pub mod bootstrap;
pub mod resolver;
