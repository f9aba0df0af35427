//! MACsec interfaces. Their pre-shared key is a secret.

use crate::ifaces::base::{BaseInterface, BaseInterfaceView, InterfaceType};
use crate::model::opt_view;
use crate::text::clone_opt_text;
use vstd::prelude::*;
use vstd::string::StringExecFns;

verus! {

/// What stands in place of a secret once the secrets are hidden.
pub open spec fn hidden_secret() -> Seq<char> {
    "<_password_hid_by_nmstate>"@
}

/// The text that stands in place of a hidden secret.
pub fn hidden_secret_text() -> (s: String)
    ensures
        s@ == hidden_secret(),
{
    String::from_str("<_password_hid_by_nmstate>")
}

/// The mathematical value of a [`MacSecConfig`].
pub struct MacSecConfigView {
    pub base_iface: Seq<char>,
    pub encrypt: bool,
    pub mka_cak: Option<Seq<char>>,
    pub mka_ckn: Option<Seq<char>>,
    pub port: u32,
}

impl MacSecConfigView {
    /// This configuration with its pre-shared key, if it has one, replaced by
    /// the fixed text.
    pub open spec fn hide_secrets(self) -> MacSecConfigView {
        MacSecConfigView {
            mka_cak: if self.mka_cak is Some {
                Some(hidden_secret())
            } else {
                None
            },
            ..self
        }
    }
}

/// What a MACsec interface adds to the common attributes.
#[derive(Debug, PartialEq, Eq)]
pub struct MacSecConfig {
    /// The name of the parent interface.
    pub base_iface: String,
    pub encrypt: bool,
    /// The pre-shared connectivity association key.
    pub mka_cak: Option<String>,
    /// The name of that key.
    pub mka_ckn: Option<String>,
    pub port: u32,
}

impl View for MacSecConfig {
    type V = MacSecConfigView;

    open spec fn view(&self) -> MacSecConfigView {
        MacSecConfigView {
            base_iface: self.base_iface@,
            encrypt: self.encrypt,
            mka_cak: opt_view(self.mka_cak),
            mka_ckn: opt_view(self.mka_ckn),
            port: self.port,
        }
    }
}

impl Clone for MacSecConfig {
    fn clone(&self) -> (r: Self)
        ensures
            r@ == self@,
    {
        MacSecConfig {
            base_iface: self.base_iface.clone(),
            encrypt: self.encrypt,
            mka_cak: clone_opt_text(&self.mka_cak),
            mka_ckn: clone_opt_text(&self.mka_ckn),
            port: self.port,
        }
    }
}

impl MacSecConfig {
    /// Replaces the pre-shared key, if there is one, by the fixed text.
    pub fn hide_secrets(&mut self)
        ensures
            final(self)@ == old(self)@.hide_secrets(),
    {
        if self.mka_cak.is_some() {
            self.mka_cak = Some(hidden_secret_text());
        }
    }
}

/// The mathematical value of a [`MacSecInterface`].
pub struct MacSecInterfaceView {
    pub base: BaseInterfaceView,
    pub macsec: Option<MacSecConfigView>,
}

impl MacSecInterfaceView {
    /// The name of the parent interface, where the interface is configured.
    pub open spec fn parent(self) -> Option<Seq<char>> {
        match self.macsec {
            Some(c) => Some(c.base_iface),
            None => None,
        }
    }

    /// This interface with its secrets hidden.
    pub open spec fn hide_secrets(self) -> MacSecInterfaceView {
        MacSecInterfaceView {
            macsec: match self.macsec {
                Some(c) => Some(c.hide_secrets()),
                None => None,
            },
            ..self
        }
    }
}

/// A MACsec interface on top of a parent interface.
#[derive(Debug, PartialEq, Eq)]
pub struct MacSecInterface {
    pub base: BaseInterface,
    pub macsec: Option<MacSecConfig>,
}

impl View for MacSecInterface {
    type V = MacSecInterfaceView;

    open spec fn view(&self) -> MacSecInterfaceView {
        MacSecInterfaceView { base: self.base@, macsec: opt_view(self.macsec) }
    }
}

impl Clone for MacSecInterface {
    fn clone(&self) -> (r: Self)
        ensures
            r@ == self@,
    {
        let macsec = match &self.macsec {
            Some(c) => Some(c.clone()),
            None => None,
        };
        MacSecInterface { base: self.base.clone(), macsec }
    }
}

impl Default for MacSecInterface {
    fn default() -> (m: Self)
        ensures
            m@ == (MacSecInterfaceView {
                base: BaseInterfaceView::empty(InterfaceType::MacSec),
                macsec: None,
            }),
    {
        MacSecInterface { base: BaseInterface::new(InterfaceType::MacSec), macsec: None }
    }
}

impl MacSecInterface {
    /// A MACsec interface without name or configuration.
    pub fn new() -> (m: Self)
        ensures
            m@ == (MacSecInterfaceView {
                base: BaseInterfaceView::empty(InterfaceType::MacSec),
                macsec: None,
            }),
    {
        MacSecInterface { base: BaseInterface::new(InterfaceType::MacSec), macsec: None }
    }

    /// Replaces the pre-shared key, if there is one, by the fixed text.
    pub fn hide_secrets(&mut self)
        ensures
            final(self)@ == old(self)@.hide_secrets(),
    {
        match self.macsec.take() {
            Some(mut c) => {
                c.hide_secrets();
                self.macsec = Some(c);
            },
            None => {},
        }
    }
}

} // verus!
