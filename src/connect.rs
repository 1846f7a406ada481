//! The list of recently used coordinator addresses, and the connect menu
//! that picks one of them or adds a new one.
use vstd::prelude::*;

verus! {

/// Recently used coordinator addresses, oldest first, and the name of the
/// document they are kept in.
pub struct Config {
    recent_ips: Vec<String>,
    file_name: String,
}

impl Config {
    pub closed spec fn ips(&self) -> Seq<String> {
        self.recent_ips@
    }

    pub closed spec fn name(&self) -> Seq<char> {
        self.file_name@
    }

    pub fn new(recent_ips: Vec<String>, file_name: String) -> (r: Config)
        ensures
            r.ips() == recent_ips@,
            r.name() == file_name@,
    {
        Config { recent_ips, file_name }
    }

    /// Records `ip` as the most recently used address.
    pub fn add(&mut self, ip: &str)
        ensures
            final(self).ips().len() == old(self).ips().len() + 1,
            final(self).ips().subrange(0, old(self).ips().len() as int) == old(self).ips(),
            final(self).ips().last()@ == ip@,
            final(self).name() == old(self).name(),
    {
        let ghost before = self.recent_ips@;
        self.recent_ips.push(ip.to_owned());
        assert(self.recent_ips@.subrange(0, before.len() as int) =~= before);
    }

    pub fn recent_ips(&self) -> (r: &Vec<String>)
        ensures
            r@ == self.ips(),
    {
        &self.recent_ips
    }

    pub fn set_file_name(&mut self, file_name: String)
        ensures
            final(self).name() == file_name@,
            final(self).ips() == old(self).ips(),
    {
        self.file_name = file_name;
    }

    pub fn file_name(&self) -> (r: String)
        ensures
            r@ == self.name(),
    {
        self.file_name.clone()
    }
}

/// A key the connect menu reacts to.
#[derive(Clone, Copy, Debug, PartialEq, Eq, Structural)]
pub enum MenuKey {
    Up,
    Down,
    Enter,
}

/// What the caller must do after the menu handled a key.
#[derive(Clone, Debug)]
pub enum MenuAction {
    Nothing,
    /// The address list changed and should be persisted.
    Save,
    /// Connect to this address, then report the result.
    Connect(String),
}

/// The connect menu. Its entries are the recent addresses followed by an
/// "add address" entry; one entry is selected.
pub struct ConnectScene {
    config: Config,
    selected_ip: usize,
    give_next_scene: bool,
    add_ip: bool,
    add_ip_buffer: String,
    failed_connect: bool,
}

impl ConnectScene {
    pub closed spec fn ips(&self) -> Seq<String> {
        self.config.ips()
    }

    pub closed spec fn selected(&self) -> nat {
        self.selected_ip as nat
    }

    /// Whether the menu is taking a new address instead of offering the list.
    pub closed spec fn adding(&self) -> bool {
        self.add_ip
    }

    pub closed spec fn buffer(&self) -> Seq<char> {
        self.add_ip_buffer@
    }

    pub closed spec fn ready(&self) -> bool {
        self.give_next_scene
    }

    pub closed spec fn failed(&self) -> bool {
        self.failed_connect
    }

    /// The selection is one of the menu's entries.
    pub open spec fn wf(&self) -> bool {
        self.selected() <= self.ips().len()
    }

    pub fn new(config: Config) -> (r: ConnectScene)
        ensures
            r.wf(),
            r.ips() == config.ips(),
            r.selected() == 0,
            !r.adding(),
            r.buffer().len() == 0,
            !r.ready(),
            !r.failed(),
    {
        ConnectScene {
            config,
            selected_ip: 0,
            give_next_scene: false,
            add_ip: false,
            add_ip_buffer: String::new(),
            failed_connect: false,
        }
    }

    /// Handles a key. Up and Down move the selection within the entries.
    /// Enter on a new address stores it and asks for it to be saved; on the
    /// "add address" entry, or with no address yet, it opens address entry;
    /// on a recent address it asks to connect there.
    pub fn handle_key(&mut self, key: MenuKey) -> (r: MenuAction)
        requires
            old(self).wf(),
        ensures
            final(self).wf(),
            final(self).buffer() == old(self).buffer(),
            final(self).ready() == old(self).ready(),
            final(self).failed() == old(self).failed(),
            key == MenuKey::Up ==> r is Nothing && final(self).ips() == old(self).ips()
                && final(self).adding() == old(self).adding()
                && final(self).selected() == if old(self).selected() > 0 {
                    (old(self).selected() - 1) as nat
                } else {
                    0
                },
            key == MenuKey::Down ==> r is Nothing && final(self).ips() == old(self).ips()
                && final(self).adding() == old(self).adding()
                && final(self).selected() == if old(self).selected() < old(self).ips().len() {
                    old(self).selected() + 1
                } else {
                    old(self).selected()
                },
            key == MenuKey::Enter && old(self).adding() ==> r is Save
                && final(self).ips() == old(self).ips().push(final(self).ips().last())
                && final(self).ips().last()@ == old(self).buffer()
                && !final(self).adding() && final(self).selected() == old(self).selected(),
            key == MenuKey::Enter && !old(self).adding() && (old(self).selected()
                == old(self).ips().len() || old(self).ips().len() == 0) ==> r is Nothing
                && final(self).ips() == old(self).ips() && final(self).adding()
                && final(self).selected() == 0,
            key == MenuKey::Enter && !old(self).adding() && old(self).selected() < old(
                self,
            ).ips().len() ==> final(self).ips() == old(self).ips() && !final(self).adding()
                && final(self).selected() == old(self).selected() && match r {
                MenuAction::Connect(a) => a == old(self).ips()[old(self).selected() as int],
                _ => false,
            },
    {
        match key {
            MenuKey::Up => {
                if self.selected_ip > 0 {
                    self.selected_ip = self.selected_ip - 1;
                }
                MenuAction::Nothing
            },
            MenuKey::Down => {
                if self.selected_ip < self.config.recent_ips().len() {
                    self.selected_ip = self.selected_ip + 1;
                }
                MenuAction::Nothing
            },
            MenuKey::Enter => {
                let n = self.config.recent_ips().len();
                if self.add_ip {
                    let ghost before = self.config.ips();
                    self.config.add(self.add_ip_buffer.as_str());
                    assert(self.config.ips() =~= before.push(self.config.ips().last()));
                    self.add_ip = false;
                    MenuAction::Save
                } else if self.selected_ip == n || n == 0 {
                    self.add_ip = true;
                    self.selected_ip = 0;
                    MenuAction::Nothing
                } else {
                    MenuAction::Connect(self.config.recent_ips()[self.selected_ip].clone())
                }
            },
        }
    }

    /// Replaces the address being entered.
    pub fn set_address_input(&mut self, text: String)
        requires
            old(self).wf(),
        ensures
            final(self).wf(),
            final(self).buffer() == text@,
            final(self).ips() == old(self).ips(),
            final(self).selected() == old(self).selected(),
            final(self).adding() == old(self).adding(),
            final(self).ready() == old(self).ready(),
            final(self).failed() == old(self).failed(),
    {
        self.add_ip_buffer = text;
    }

    /// Records the result of a connection attempt: success leads on to the
    /// next screen, failure is shown until `clear_failure`.
    pub fn connect_result(&mut self, connected: bool)
        requires
            old(self).wf(),
        ensures
            final(self).wf(),
            final(self).ready() == (old(self).ready() || connected),
            final(self).failed() == (old(self).failed() || !connected),
            final(self).ips() == old(self).ips(),
            final(self).selected() == old(self).selected(),
            final(self).adding() == old(self).adding(),
            final(self).buffer() == old(self).buffer(),
    {
        if connected {
            self.give_next_scene = true;
        } else {
            self.failed_connect = true;
        }
    }

    pub fn clear_failure(&mut self)
        requires
            old(self).wf(),
        ensures
            final(self).wf(),
            !final(self).failed(),
            final(self).ready() == old(self).ready(),
            final(self).ips() == old(self).ips(),
            final(self).selected() == old(self).selected(),
            final(self).adding() == old(self).adding(),
            final(self).buffer() == old(self).buffer(),
    {
        self.failed_connect = false;
    }

    pub fn has_next_scene(&self) -> (r: bool)
        ensures
            r == self.ready(),
    {
        self.give_next_scene
    }

    pub fn failed_connect(&self) -> (r: bool)
        ensures
            r == self.failed(),
    {
        self.failed_connect
    }

    pub fn selected_ip(&self) -> (r: usize)
        ensures
            r == self.selected(),
    {
        self.selected_ip
    }

    pub fn is_adding(&self) -> (r: bool)
        ensures
            r == self.adding(),
    {
        self.add_ip
    }

    pub fn address_input(&self) -> (r: &String)
        ensures
            r@ == self.buffer(),
    {
        &self.add_ip_buffer
    }

    pub fn config(&self) -> (r: &Config)
        ensures
            r.ips() == self.ips(),
    {
        &self.config
    }
}

} // verus!
