use vstd::prelude::*;

verus! {

/// The fixed set of independently toggleable monitors.
#[derive(PartialEq, Eq, Structural, Hash, Clone, Copy, Debug)]
pub enum Module {
    Sound,
    Battery,
    Brightness,
    Keyboard,
}

/// The order in which a configuration pass visits the modules.
pub open spec fn reload_order() -> Seq<Module> {
    seq![Module::Sound, Module::Battery, Module::Keyboard, Module::Brightness]
}

impl Module {
    /// Every module, in the order a configuration pass visits them.
    pub fn all() -> (r: Vec<Module>)
        ensures
            r@ == reload_order(),
    {
        let r = vec![Module::Sound, Module::Battery, Module::Keyboard, Module::Brightness];
        assert(r@ =~= reload_order());
        r
    }
}

} // verus!
