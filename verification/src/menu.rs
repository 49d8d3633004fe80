//! The pages of the console's side menu.

use vstd::prelude::*;

verus! {

/// A page of the console.
#[derive(Clone, Copy, Debug, PartialEq, Eq, Structural)]
pub enum MenuItem {
    DeviceStatus,
    DeviceControl,
    Settings,
    About,
}

impl MenuItem {
    /// The title of the page, as the menu shows it.
    pub open spec fn spec_title(&self) -> Seq<char> {
        match self {
            MenuItem::DeviceStatus => "设备状态"@,
            MenuItem::DeviceControl => "设备控制"@,
            MenuItem::Settings => "设置"@,
            MenuItem::About => "关于"@,
        }
    }

    /// Position of the page in the menu.
    pub open spec fn spec_index(&self) -> int {
        match self {
            MenuItem::DeviceStatus => 0,
            MenuItem::DeviceControl => 1,
            MenuItem::Settings => 2,
            MenuItem::About => 3,
        }
    }

    /// The title of the page, as the menu shows it.
    pub fn title(&self) -> (title: &'static str)
        ensures
            title@ == self.spec_title(),
    {
        match self {
            MenuItem::DeviceStatus => "设备状态",
            MenuItem::DeviceControl => "设备控制",
            MenuItem::Settings => "设置",
            MenuItem::About => "关于",
        }
    }

    /// All pages, in menu order.
    pub fn all() -> (items: [MenuItem; 4])
        ensures
            items@ == seq![
                MenuItem::DeviceStatus,
                MenuItem::DeviceControl,
                MenuItem::Settings,
                MenuItem::About,
            ],
            forall|i: int| 0 <= i < 4 ==> (#[trigger] items@[i]).spec_index() == i,
    {
        let items = [
            MenuItem::DeviceStatus,
            MenuItem::DeviceControl,
            MenuItem::Settings,
            MenuItem::About,
        ];
        assert(items@ =~= seq![
            MenuItem::DeviceStatus,
            MenuItem::DeviceControl,
            MenuItem::Settings,
            MenuItem::About,
        ]);
        items
    }
}

} // verus!
