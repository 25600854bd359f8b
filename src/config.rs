use vstd::prelude::*;

verus! {

/// General settings: the main loop's tick and the scale step in pixels.
pub struct General {
    pub update_ms: u64,
    pub scale_steps: u32,
}

impl Default for General {
    fn default() -> (r: Self)
        ensures
            r.update_ms == 5,
            r.scale_steps == 20,
    {
        General { update_ms: 5, scale_steps: 20 }
    }
}

/// Keyboard settings: the layout to set at startup; empty leaves the layout alone.
pub struct Keyboard {
    pub layout: String,
}

impl Default for Keyboard {
    fn default() -> (r: Self)
        ensures
            r.layout@ == Seq::<char>::empty(),
    {
        Keyboard { layout: String::new() }
    }
}

/// Desktop settings: the background color.
pub struct Desktop {
    pub color: String,
}

impl Default for Desktop {
    fn default() -> (r: Self)
        ensures
            r.color@ == "#464646"@,
    {
        Desktop { color: "#464646".to_owned() }
    }
}

/// Status bar settings; the refresh interval is in milliseconds.
pub struct Bar {
    pub text_color: String,
    pub background_color: String,
    pub height: u32,
    pub enable: bool,
    pub update_ms: u64,
    pub widgets: Vec<String>,
}

impl Default for Bar {
    fn default() -> (r: Self)
        ensures
            r.text_color@ == "#ffffff"@,
            r.background_color@ == "#000000"@,
            r.height == 20,
            r.enable,
            r.update_ms == 1000,
            r.widgets@.len() == 1 && r.widgets@[0]@ == "desktop"@,
    {
        let mut widgets: Vec<String> = Vec::new();
        widgets.push("desktop".to_owned());
        Bar {
            text_color: "#ffffff".to_owned(),
            background_color: "#000000".to_owned(),
            height: 20,
            enable: true,
            update_ms: 1000,
            widgets,
        }
    }
}

/// Key bindings: rows of (key spec, built-in action) and of (key spec, command
/// line), and the modifiers of the move and resize pointer bindings.
pub struct Keybinds {
    pub gridwm: Vec<Vec<String>>,
    pub exec_binds: Vec<Vec<String>>,
    pub move_mod: String,
    pub resize_mod: String,
}

impl Default for Keybinds {
    fn default() -> (r: Self)
        ensures
            r.gridwm@.len() == 0,
            r.exec_binds@.len() == 0,
            r.move_mod@ == "SUPER"@,
            r.resize_mod@ == "SUPER"@,
    {
        Keybinds {
            gridwm: Vec::new(),
            exec_binds: Vec::new(),
            move_mod: "SUPER".to_owned(),
            resize_mod: "SUPER".to_owned(),
        }
    }
}

/// Command lines launched once at startup.
pub struct Start {
    pub jobs: Vec<String>,
}

impl Default for Start {
    fn default() -> (r: Self)
        ensures
            r.jobs@.len() == 0,
    {
        Start { jobs: Vec::new() }
    }
}

} // verus!
