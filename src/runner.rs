//! Choosing how an application is launched: in a browser page, or in a
//! desktop window of a fixed size and look.
use vstd::prelude::*;

verus! {

/// Where an application runs.
#[derive(Clone, Copy, Debug, PartialEq, Eq, Structural)]
pub enum Platform {
    Web,
    Desktop,
}

/// The window a desktop application opens: its title and logical size,
/// and how it looks. The host centres it on the first monitor.
#[derive(Clone, Copy, Debug)]
pub struct WindowPlan {
    pub title: &'static str,
    pub width: u32,
    pub height: u32,
    pub transparent: bool,
    pub always_on_top: bool,
    pub menu: bool,
    pub context_menu: bool,
}

/// What the host is to launch: the root component, and on the desktop the window.
pub enum Launch<R> {
    Web { root: R },
    Desktop { root: R, window: WindowPlan },
}

/// The window that every desktop launch opens.
pub open spec fn desktop_window() -> WindowPlan {
    WindowPlan {
        title: "File Explorer",
        width: 800,
        height: 600,
        transparent: true,
        always_on_top: true,
        menu: false,
        context_menu: false,
    }
}

/// Launches applications on one platform.
pub struct Runner {
    pub platform: Platform,
}

impl Default for Runner {
    fn default() -> (r: Self)
        ensures
            r.platform == Platform::Web,
    {
        Runner { platform: Platform::Web }
    }
}

impl Runner {
    /// A runner for the browser.
    pub fn new() -> (r: Self)
        ensures
            r.platform == Platform::Web,
    {
        Runner::default()
    }

    /// A runner for a desktop window.
    pub fn desktop() -> (r: Self)
        ensures
            r.platform == Platform::Desktop,
    {
        Runner { platform: Platform::Desktop }
    }

    /// What to launch for the root component `root` on this runner's platform.
    pub fn run<R>(&self, root: R) -> (plan: Launch<R>)
        ensures
            self.platform == Platform::Web ==> plan == (Launch::Web { root }),
            self.platform == Platform::Desktop ==> plan == (Launch::Desktop {
                root,
                window: desktop_window(),
            }),
    {
        match self.platform {
            Platform::Web => Launch::Web { root },
            Platform::Desktop => Launch::Desktop {
                root,
                window: WindowPlan {
                    title: "File Explorer",
                    width: 800,
                    height: 600,
                    transparent: true,
                    always_on_top: true,
                    menu: false,
                    context_menu: false,
                },
            },
        }
    }
}

} // verus!
