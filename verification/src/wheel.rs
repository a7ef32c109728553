use rand::Rng;
use vstd::prelude::*;

verus! {

/// An item's colour, given as its slot among `total` hues spread evenly
/// around the HSL colour wheel; the slot with index `i` has hue
/// `i / total * 360` degrees.
#[derive(Clone, Copy, Debug)]
pub struct WheelColor {
    pub index: usize,
    pub total: usize,
}

/// A single item on the wheel: what is shown and what is launched.
#[derive(Clone, Debug)]
pub struct WheelItem {
    pub name: String,
    pub executable: String,
    pub color: WheelColor,
}

impl WheelItem {
    /// Creates an item whose colour is the `index`-th of `total` evenly spread hues.
    pub fn new(name: &str, executable: &str, index: usize, total: usize) -> (item: WheelItem)
        ensures
            item.name@ == name@,
            item.executable@ == executable@,
            item.color == (WheelColor { index, total }),
    {
        WheelItem {
            name: String::from_str(name),
            executable: String::from_str(executable),
            color: WheelColor { index, total },
        }
    }
}

/// The number of items on the default wheel.
pub const DEFAULT_ITEM_COUNT: usize = 17;

/// The default wheel's entries, in order: each item's name and the
/// executable it launches.
pub open spec fn default_catalog() -> Seq<(Seq<char>, Seq<char>)> {
    seq![
        ("Notepad"@, "notepad.exe"@),
        ("Calculator"@, "calc.exe"@),
        ("Paint"@, "mspaint.exe"@),
        ("Explorer"@, "explorer.exe"@),
        ("Command"@, "cmd.exe"@),
        ("Task Mgr"@, "taskmgr.exe"@),
        ("Snipping"@, "SnippingTool.exe"@),
        ("Control"@, "control.exe"@),
        ("PowerShell"@, "powershell.exe"@),
        ("Character Map"@, "charmap.exe"@),
        ("Workspaces Editor"@, "C:\\Users\\crloewen\\AppData\\Local\\PowerToys\\PowerToys.WorkspacesEditor.exe"@),
        ("PowerToys Settings"@, "C:\\Users\\crloewen\\AppData\\Local\\PowerToys\\PowerToys.exe"@),
        ("Environment Variables"@, "C:\\Users\\crloewen\\AppData\\Local\\PowerToys\\WinUI3Apps\\PowerToys.EnvironmentVariables.exe"@),
        ("Registry Preview"@, "C:\\Users\\crloewen\\AppData\\Local\\PowerToys\\WinUI3Apps\\PowerToys.RegistryPreview.exe"@),
        ("Power Rename"@, "C:\\Users\\crloewen\\AppData\\Local\\PowerToys\\WinUI3Apps\\PowerToys.PowerRename.exe"@),
        ("File Locksmith"@, "C:\\Users\\crloewen\\AppData\\Local\\PowerToys\\WinUI3Apps\\PowerToys.FileLocksmithUI.exe"@),
        ("Styles Report Tool"@, "C:\\Users\\crloewen\\AppData\\Local\\PowerToys\\Tools\\PowerToys.StylesReportTool.exe"@),
    ]
}

/// `items` lists the entries of `catalog` in order, the `i`-th item
/// coloured with the `i`-th of `catalog.len()` hues.
pub open spec fn lists_catalog(items: Seq<WheelItem>, catalog: Seq<(Seq<char>, Seq<char>)>) -> bool {
    &&& items.len() == catalog.len()
    &&& forall|i: int|
        #![trigger items[i]]
        0 <= i < items.len() ==> {
            &&& items[i].name@ == catalog[i].0
            &&& items[i].executable@ == catalog[i].1
            &&& items[i].color == (WheelColor { index: i as usize, total: catalog.len() as usize })
        }
}

/// Items that list the default catalogue launch, for each name, that
/// program's own executable: Notepad runs `notepad.exe`, Calculator
/// `calc.exe`, Paint `mspaint.exe`, and so on for all 17 entries, in this
/// order.
pub proof fn lemma_default_items_launch_their_programs(items: Seq<WheelItem>)
    requires
        lists_catalog(items, default_catalog()),
    ensures
        items.len() == 17,
        items[0].name@ == "Notepad"@ && items[0].executable@ == "notepad.exe"@,
        items[1].name@ == "Calculator"@ && items[1].executable@ == "calc.exe"@,
        items[2].name@ == "Paint"@ && items[2].executable@ == "mspaint.exe"@,
        items[3].name@ == "Explorer"@ && items[3].executable@ == "explorer.exe"@,
        items[4].name@ == "Command"@ && items[4].executable@ == "cmd.exe"@,
        items[5].name@ == "Task Mgr"@ && items[5].executable@ == "taskmgr.exe"@,
        items[6].name@ == "Snipping"@ && items[6].executable@ == "SnippingTool.exe"@,
        items[7].name@ == "Control"@ && items[7].executable@ == "control.exe"@,
        items[8].name@ == "PowerShell"@ && items[8].executable@ == "powershell.exe"@,
        items[9].name@ == "Character Map"@ && items[9].executable@ == "charmap.exe"@,
        items[10].name@ == "Workspaces Editor"@ && items[10].executable@ == "C:\\Users\\crloewen\\AppData\\Local\\PowerToys\\PowerToys.WorkspacesEditor.exe"@,
        items[11].name@ == "PowerToys Settings"@ && items[11].executable@ == "C:\\Users\\crloewen\\AppData\\Local\\PowerToys\\PowerToys.exe"@,
        items[12].name@ == "Environment Variables"@ && items[12].executable@ == "C:\\Users\\crloewen\\AppData\\Local\\PowerToys\\WinUI3Apps\\PowerToys.EnvironmentVariables.exe"@,
        items[13].name@ == "Registry Preview"@ && items[13].executable@ == "C:\\Users\\crloewen\\AppData\\Local\\PowerToys\\WinUI3Apps\\PowerToys.RegistryPreview.exe"@,
        items[14].name@ == "Power Rename"@ && items[14].executable@ == "C:\\Users\\crloewen\\AppData\\Local\\PowerToys\\WinUI3Apps\\PowerToys.PowerRename.exe"@,
        items[15].name@ == "File Locksmith"@ && items[15].executable@ == "C:\\Users\\crloewen\\AppData\\Local\\PowerToys\\WinUI3Apps\\PowerToys.FileLocksmithUI.exe"@,
        items[16].name@ == "Styles Report Tool"@ && items[16].executable@ == "C:\\Users\\crloewen\\AppData\\Local\\PowerToys\\Tools\\PowerToys.StylesReportTool.exe"@,
{
}

/// Appends the default entry `(name, executable)` at the next slot of the default wheel.
fn push_entry(items: &mut Vec<WheelItem>, name: &str, executable: &str)
    requires
        old(items).len() < DEFAULT_ITEM_COUNT,
    ensures
        final(items)@.len() == old(items)@.len() + 1,
        final(items)@.take(old(items)@.len() as int) == old(items)@,
        final(items)@.last().name@ == name@,
        final(items)@.last().executable@ == executable@,
        final(items)@.last().color == (WheelColor { index: old(items)@.len() as usize, total: DEFAULT_ITEM_COUNT }),
{
    let index = items.len();
    items.push(WheelItem::new(name, executable, index, DEFAULT_ITEM_COUNT));
    assert(items@.take(index as int) =~= old(items)@);
}

/// The wheel: the items that a spin chooses among.
pub struct Wheel {
    items: Vec<WheelItem>,
}

impl View for Wheel {
    type V = Seq<WheelItem>;

    closed spec fn view(&self) -> Seq<WheelItem> {
        self.items@
    }
}

impl Wheel {
    /// Creates the default wheel.
    pub fn new() -> (wheel: Wheel)
        ensures
            lists_catalog(wheel@, default_catalog()),
    {
        Wheel::with_items(Wheel::default_items())
    }

    /// Creates a wheel with the given items, in the given order.
    pub fn with_items(items: Vec<WheelItem>) -> (wheel: Wheel)
        ensures
            wheel@ == items@,
    {
        Wheel { items }
    }

    /// The default items, coloured by their position among the 17 hues.
    pub fn default_items() -> (items: Vec<WheelItem>)
        ensures
            lists_catalog(items@, default_catalog()),
    {
        let mut items: Vec<WheelItem> = Vec::new();
        push_entry(&mut items, "Notepad", "notepad.exe");
        push_entry(&mut items, "Calculator", "calc.exe");
        push_entry(&mut items, "Paint", "mspaint.exe");
        push_entry(&mut items, "Explorer", "explorer.exe");
        push_entry(&mut items, "Command", "cmd.exe");
        push_entry(&mut items, "Task Mgr", "taskmgr.exe");
        push_entry(&mut items, "Snipping", "SnippingTool.exe");
        push_entry(&mut items, "Control", "control.exe");
        push_entry(&mut items, "PowerShell", "powershell.exe");
        push_entry(&mut items, "Character Map", "charmap.exe");
        push_entry(&mut items, "Workspaces Editor", "C:\\Users\\crloewen\\AppData\\Local\\PowerToys\\PowerToys.WorkspacesEditor.exe");
        push_entry(&mut items, "PowerToys Settings", "C:\\Users\\crloewen\\AppData\\Local\\PowerToys\\PowerToys.exe");
        push_entry(&mut items, "Environment Variables", "C:\\Users\\crloewen\\AppData\\Local\\PowerToys\\WinUI3Apps\\PowerToys.EnvironmentVariables.exe");
        push_entry(&mut items, "Registry Preview", "C:\\Users\\crloewen\\AppData\\Local\\PowerToys\\WinUI3Apps\\PowerToys.RegistryPreview.exe");
        push_entry(&mut items, "Power Rename", "C:\\Users\\crloewen\\AppData\\Local\\PowerToys\\WinUI3Apps\\PowerToys.PowerRename.exe");
        push_entry(&mut items, "File Locksmith", "C:\\Users\\crloewen\\AppData\\Local\\PowerToys\\WinUI3Apps\\PowerToys.FileLocksmithUI.exe");
        push_entry(&mut items, "Styles Report Tool", "C:\\Users\\crloewen\\AppData\\Local\\PowerToys\\Tools\\PowerToys.StylesReportTool.exe");
        items
    }

    /// All items, in order.
    pub fn items(&self) -> (items: &[WheelItem])
        ensures
            items@ == self@,
    {
        self.items.as_slice()
    }
    /// The item that a spin lands on when the drawn position is `index`.
    pub fn pick(&self, index: usize) -> (item: &WheelItem)
        requires
            index < self@.len(),
        ensures
            *item == self@[index as int],
    {
        &self.items[index]
    }

    /// Spins the wheel: draws a position uniformly at random and returns
    /// the item there.  The wheel must not be empty.
    pub fn spin(&self) -> (item: &WheelItem)
        requires
            self@.len() > 0,
        ensures
            exists|i: int| 0 <= i < self@.len() && *item == self@[i],
    {
        let index = random_below(self.items.len());
        self.pick(index)
    }

    /// The segment that an angular offset of `offset` whole segments from
    /// the pointer falls in: offsets wrap around the wheel.
    pub fn segment_for_offset(&self, offset: usize) -> (segment: usize)
        requires
            self@.len() > 0,
        ensures
            segment == offset % (self@.len() as usize),
            segment < self@.len(),
    {
        offset % self.items.len()
    }
}

impl Default for Wheel {
    /// The default wheel.
    fn default() -> (wheel: Wheel)
        ensures
            lists_catalog(wheel@, default_catalog()),
    {
        Wheel::new()
    }
}

/// Draws a number uniformly at random from `0..bound`, by
/// `rand::Rng::gen_range` on the thread-local generator of
/// `rand::thread_rng`; the range is non-empty, on which `gen_range` does not
/// panic and returns a value inside the range.  Which value comes out is left
/// open.
#[verifier::external_body]
fn random_below(bound: usize) -> (r: usize)
    requires
        bound > 0,
    ensures
        r < bound,
{
    rand::thread_rng().gen_range(0..bound)
}

} // verus!
