//! Multimode radio driver: power sequencing, command dispatch and status
//! decoding for a radio core that runs mode-specific firmware patches.
//!
//! The radio hardware executes commands posted to its command engine and
//! reports back through a status word. The register interface itself is
//! chip code; here the core is modeled by the commands posted to it and
//! the status word it last reported, so the driver's sequencing and its
//! reading of the status encodings are checked. The mode and its firmware
//! patches travel as plain data.

use vstd::prelude::*;

verus! {

use crate::returncode::ReturnCode;

/// Operating mode of the radio core.
#[derive(Clone, Copy, Debug, PartialEq, Eq, Structural)]
pub enum RfcMode {
    /// Bluetooth Low Energy.
    BLE,
    /// IEEE 802.15.4.
    IEEE,
    /// Keep whatever mode is loaded.
    Unchanged,
}

/// The firmware patch set of the command-and-packet engine for one mode.
#[derive(Clone, Copy, Debug, PartialEq, Eq, Structural)]
pub struct CpePatches;

/// The firmware patch set of the RF front end for one mode.
#[derive(Clone, Copy, Debug, PartialEq, Eq, Structural)]
pub struct RfePatches;

/// The firmware patch set of the modulation engine for one mode.
#[derive(Clone, Copy, Debug, PartialEq, Eq, Structural)]
pub struct McePatches;

/// Which command-and-packet-engine patch a mode uses.
#[derive(Clone, Copy, Debug, PartialEq, Eq, Structural)]
pub enum CpePatch {
    /// The generic FSK patch.
    GenFsk {
        /// The patch images.
        patch: CpePatches,
    },
}

/// Which RF-front-end patch a mode uses.
#[derive(Clone, Copy, Debug, PartialEq, Eq, Structural)]
pub enum RfePatch {
    /// The generic FSK patch.
    GenFsk {
        /// The patch images.
        patch: RfePatches,
    },
}

/// Which modulation-engine patch a mode uses.
#[derive(Clone, Copy, Debug, PartialEq, Eq, Structural)]
pub enum McePatch {
    /// The generic FSK patch.
    GenFsk {
        /// The patch images.
        patch: McePatches,
    },
    /// The long-range patch.
    LongRange {
        /// The patch images.
        patch: McePatches,
    },
}

/// A mode with the three patches it runs.
#[derive(Clone, Copy, Debug, PartialEq, Eq, Structural)]
pub struct RadioMode {
    /// The core's operating mode.
    pub mode: RfcMode,
    /// Command-and-packet-engine patch.
    pub cpe_patch: CpePatch,
    /// RF-front-end patch.
    pub rfe_patch: RfePatch,
    /// Modulation-engine patch.
    pub mce_patch: McePatch,
}

impl Default for RadioMode {
    /// The generic FSK patches with the mode left unchanged.
    fn default() -> (r: RadioMode)
        ensures
            r == (RadioMode {
                mode: RfcMode::Unchanged,
                cpe_patch: CpePatch::GenFsk { patch: CpePatches },
                rfe_patch: RfePatch::GenFsk { patch: RfePatches },
                mce_patch: McePatch::GenFsk { patch: McePatches },
            }),
    {
        RadioMode {
            mode: RfcMode::Unchanged,
            cpe_patch: CpePatch::GenFsk { patch: CpePatches },
            rfe_patch: RfePatch::GenFsk { patch: RfePatches },
            mce_patch: McePatch::GenFsk { patch: McePatches },
        }
    }
}

/// A proprietary-mode radio setup command, with the divider configuration
/// the synthesizer needs.
#[derive(Clone, Copy, Debug, PartialEq, Eq, Structural)]
pub struct CommandRadioDivSetup {
    /// Command identifier.
    pub command_no: u16,
    /// Center frequency word.
    pub center_freq: u16,
    /// Frequency divider.
    pub lo_divider: u8,
}

/// How the radio is to be set up.
#[derive(Clone, Copy, Debug, PartialEq, Eq, Structural)]
pub enum RadioSetupCommand {
    /// Bluetooth Low Energy setup.
    Ble,
    /// Proprietary generic FSK setup.
    PropGfsk {
        /// The setup command to post.
        cmd: CommandRadioDivSetup,
    },
}

/// An immediate command posted to the radio core: an identifier and one
/// parameter word.
#[derive(Clone, Copy, Debug, PartialEq, Eq, Structural)]
pub struct DirectCommand {
    /// Command identifier.
    pub command_no: u16,
    /// Parameter word.
    pub params: u16,
}

impl DirectCommand {
    /// A direct command from its parts.
    pub fn new(command_no: u16, params: u16) -> (r: DirectCommand)
        ensures
            r == (DirectCommand { command_no, params }),
    {
        DirectCommand { command_no, params }
    }
}

/// The driver's model of the radio core: what was posted to it and what it
/// last reported. The chip's register interface keeps this in sync.
pub struct RfCore {
    /// Whether the core's power domain is up.
    pub enabled: bool,
    /// The operating mode last selected.
    pub mode: RfcMode,
    /// The core's last reported status word.
    pub status: u32,
    /// Identifiers of the direct commands posted, oldest first.
    pub posted: Vec<DirectCommand>,
}

impl RfCore {
    /// A powered-down core with a clean command history.
    pub fn new() -> (r: RfCore)
        ensures
            !r.enabled,
            r.mode == RfcMode::Unchanged,
            r.status == 0,
            r.posted@.len() == 0,
    {
        RfCore { enabled: false, mode: RfcMode::Unchanged, status: 0, posted: Vec::new() }
    }

    /// Select the operating mode.
    pub fn set_mode(&mut self, mode: RfcMode)
        ensures
            *final(self) == (RfCore { mode, ..*old(self) }),
    {
        self.mode = mode;
    }

    /// Power the core's domain up.
    pub fn enable(&mut self)
        ensures
            *final(self) == (RfCore { enabled: true, ..*old(self) }),
    {
        self.enabled = true;
    }

    /// Power the core's domain down; reports success.
    pub fn disable(&mut self) -> (r: ReturnCode)
        ensures
            *final(self) == (RfCore { enabled: false, ..*old(self) }),
            r == ReturnCode::SUCCESS,
    {
        self.enabled = false;
        ReturnCode::SUCCESS
    }

    /// Post one direct command; refused while the core is powered down.
    pub fn send_direct(&mut self, cmd: &DirectCommand) -> (r: Result<(), ReturnCode>)
        ensures
            old(self).enabled ==> r is Ok && final(self).posted@ == old(self).posted@.push(*cmd)
                && final(self).enabled == old(self).enabled && final(self).status == old(
                self,
            ).status && final(self).mode == old(self).mode,
            !old(self).enabled ==> r == Err::<(), ReturnCode>(ReturnCode::EOFF) && *final(self)
                == *old(self),
    {
        if self.enabled {
            self.posted.push(*cmd);
            Ok(())
        } else {
            Err(ReturnCode::EOFF)
        }
    }
}

/// The multimode radio driver.
pub struct Radio {
    /// The radio core.
    pub rfc: RfCore,
    /// The mode configured, once one is.
    pub mode: Option<RadioMode>,
    /// The setup command configured, once one is.
    pub setup: Option<RadioSetupCommand>,
    /// Whether transmit, receive and configuration clients are registered.
    pub tx_client_set: bool,
    /// Whether a receive client is registered.
    pub rx_client_set: bool,
    /// Whether a configuration client is registered.
    pub cfg_client_set: bool,
    /// A configuration change waits to be committed.
    pub update_config: bool,
    /// Power the core down at the next command boundary.
    pub schedule_powerdown: bool,
    /// A transmission owns this buffer until its completion event.
    pub tx_buf: Option<Vec<u8>>,
    /// A reception owns this buffer until its completion event.
    pub rx_buf: Option<Vec<u8>>,
}

impl Radio {
    /// A driver around a radio core, with nothing configured.
    pub fn new(rfc: RfCore) -> (r: Radio)
        ensures
            r.rfc == rfc,
            r.mode is None,
            r.setup is None,
            !r.tx_client_set,
            !r.rx_client_set,
            !r.cfg_client_set,
            !r.update_config,
            !r.schedule_powerdown,
            r.tx_buf is None,
            r.rx_buf is None,
    {
        Radio {
            rfc,
            mode: None,
            setup: None,
            tx_client_set: false,
            rx_client_set: false,
            cfg_client_set: false,
            update_config: false,
            schedule_powerdown: false,
            tx_buf: None,
            rx_buf: None,
        }
    }

    /// Power the radio up for Bluetooth Low Energy work: select the mode,
    /// enable the power domain and report how the setup went — success
    /// exactly when the core then reports the done status.
    pub fn power_up(&mut self) -> (r: Result<(), ReturnCode>)
        ensures
            final(self).rfc == (RfCore { enabled: true, mode: RfcMode::BLE, ..old(self).rfc }),
            *final(self) == (Radio { rfc: final(self).rfc, ..*old(self) }),
            r is Ok <==> final(self).rfc.status == 0x0400,
    {
        self.rfc.set_mode(RfcMode::BLE);
        self.rfc.enable();
        // the core acknowledges a completed setup with the done status
        let status = self.rfc.status;
        if status == 0x0400 {
            Ok(())
        } else {
            Err(self.get_status_return_code())
        }
    }

    /// Power the radio down; success exactly when the core accepted it.
    pub fn power_down(&mut self) -> (r: Result<(), ReturnCode>)
        ensures
            final(self).rfc == (RfCore { enabled: false, ..old(self).rfc }),
            *final(self) == (Radio { rfc: final(self).rfc, ..*old(self) }),
            r is Ok,
    {
        let status = self.rfc.disable();
        match status {
            ReturnCode::SUCCESS => Ok(()),
            _ => Err(status),
        }
    }

    /// Classify the core's status word as a return code, without the
    /// detail bits.
    fn get_status_return_code(&self) -> (r: ReturnCode)
        ensures
            (self.rfc.status & 0x0F00) == 0 || (self.rfc.status & 0x0F00) == 4
                ==> r == ReturnCode::SUCCESS,
            (self.rfc.status & 0x0F00) == 8 ==> r == ReturnCode::FAIL,
    {
        let masked = self.rfc.status & 0x0F00;
        if masked == 0 || masked == 4 {
            ReturnCode::SUCCESS
        } else if masked == 8 {
            ReturnCode::FAIL
        } else {
            ReturnCode::EINVAL
        }
    }

    /// The core's status word classified, handed back with the raw word:
    /// the low command classes are successes, the error class fails, and
    /// everything else is an invalid encoding.
    pub fn get_command_status(&self) -> (r: (ReturnCode, Option<u32>))
        ensures
            r.1 == Some(self.rfc.status),
            (self.rfc.status & 0x0F00) == 0 || (self.rfc.status & 0x0F00) == 4 ==> r.0
                == ReturnCode::SUCCESS,
            (self.rfc.status & 0x0F00) == 8 ==> r.0 == ReturnCode::FAIL,
            !((self.rfc.status & 0x0F00) == 0 || (self.rfc.status & 0x0F00) == 4 || (self.rfc.status
                & 0x0F00) == 8) ==> r.0 == ReturnCode::EINVAL,
    {
        let status = self.rfc.status;
        let masked = status & 0x0F00;
        if masked == 0 || masked == 4 {
            (ReturnCode::SUCCESS, Some(status))
        } else if masked == 8 {
            (ReturnCode::FAIL, Some(status))
        } else {
            (ReturnCode::EINVAL, Some(status))
        }
    }

    /// Whether the core reports a command pending or running.
    pub fn busy(&self) -> (r: bool)
        ensures
            r == (self.rfc.status == 0x0001 || self.rfc.status == 0x0002),
    {
        let status = self.rfc.status;
        status == 0x0001 || status == 0x0002
    }

    /// Start a transmission of `tx_buf`. While an earlier transmission
    /// still owns the radio the new buffer is refused busy — handed
    /// straight back — rather than blocking; otherwise the transmit
    /// command is posted — the core accepts it only while powered — and
    /// the buffer is owned until the completion event hands it back.
    pub fn transmit(&mut self, tx_buf: Vec<u8>, _frame_len: usize) -> (r: (
        ReturnCode,
        Option<Vec<u8>>,
    ))
        ensures
            old(self).tx_buf is Some ==> r.0 == ReturnCode::EBUSY && (r.1 matches Some(b) && b@
                == tx_buf@) && *final(self) == *old(self),
            old(self).tx_buf is None ==> r.0 == ReturnCode::SUCCESS && r.1 is None && (final(self).tx_buf matches Some(b) && b@ == tx_buf@) && (old(self).rfc.enabled ==> final(self).rfc.posted@ == old(self).rfc.posted@.push(
                DirectCommand { command_no: 0x3801, params: 0 },
            )) && (!old(self).rfc.enabled ==> final(self).rfc == old(self).rfc),
    {
        if self.tx_buf.is_some() {
            // the radio may still be reading the held buffer
            (ReturnCode::EBUSY, Some(tx_buf))
        } else {
            let cmd = DirectCommand { command_no: 0x3801, params: 0 };
            let _ = self.rfc.send_direct(&cmd);
            self.tx_buf = Some(tx_buf);
            (ReturnCode::SUCCESS, None)
        }
    }

    /// Stop the current radio operation gracefully.
    pub fn send_stop_command(&mut self) -> (r: ReturnCode)
        ensures
            old(self).rfc.enabled ==> r == ReturnCode::SUCCESS && final(self).rfc.posted@ == old(
                self,
            ).rfc.posted@.push(DirectCommand { command_no: 0x0402, params: 0 }),
            !old(self).rfc.enabled ==> r == ReturnCode::FAIL,
    {
        let command = DirectCommand::new(0x0402, 0);
        if self.rfc.send_direct(&command).is_ok() {
            ReturnCode::SUCCESS
        } else {
            ReturnCode::FAIL
        }
    }

    /// Kill every outstanding radio operation at once.
    pub fn send_kill_command(&mut self) -> (r: ReturnCode)
        ensures
            old(self).rfc.enabled ==> r == ReturnCode::SUCCESS && final(self).rfc.posted@ == old(
                self,
            ).rfc.posted@.push(DirectCommand { command_no: 0x0401, params: 0 }),
            !old(self).rfc.enabled ==> r == ReturnCode::FAIL,
    {
        let command = DirectCommand::new(0x0401, 0);
        if self.rfc.send_direct(&command).is_ok() {
            ReturnCode::SUCCESS
        } else {
            ReturnCode::FAIL
        }
    }

    /// Ask the core for a different transmit power.
    pub fn set_tx_power(&mut self, power: u16) -> (r: ReturnCode)
        ensures
            old(self).rfc.enabled ==> r == ReturnCode::SUCCESS && final(self).rfc.posted@ == old(
                self,
            ).rfc.posted@.push(DirectCommand { command_no: 0x0010, params: power }),
            !old(self).rfc.enabled ==> r == ReturnCode::FAIL,
    {
        let command = DirectCommand::new(0x0010, power);
        if self.rfc.send_direct(&command).is_ok() {
            ReturnCode::SUCCESS
        } else {
            ReturnCode::FAIL
        }
    }

    /// Bring the radio up; the configuration interface's entry point.
    pub fn initialize(&mut self) -> (r: ReturnCode)
        ensures
            final(self).rfc.enabled,
            final(self).rfc.status == 0x0400 ==> r == ReturnCode::SUCCESS,
    {
        match self.power_up() {
            Ok(()) => ReturnCode::SUCCESS,
            Err(e) => e,
        }
    }

    /// Power-cycle the radio.
    pub fn reset(&mut self) -> (r: ReturnCode)
        ensures
            final(self).rfc.enabled,
            final(self).rfc.status == 0x0400 ==> r == ReturnCode::SUCCESS,
    {
        let _ = self.power_down();
        match self.power_up() {
            Ok(()) => ReturnCode::SUCCESS,
            Err(e) => e,
        }
    }

    /// Stop the current operation gracefully through the direct command.
    pub fn stop(&mut self) -> (r: ReturnCode)
        ensures
            old(self).rfc.enabled ==> r == ReturnCode::SUCCESS,
            !old(self).rfc.enabled ==> r == ReturnCode::FAIL,
    {
        let cmd_stop = DirectCommand::new(0x0402, 0);
        let stopped = self.rfc.send_direct(&cmd_stop).is_ok();
        if stopped {
            ReturnCode::SUCCESS
        } else {
            ReturnCode::FAIL
        }
    }

    /// Whether the radio is available; this driver keeps it so.
    pub fn is_on(&self) -> (r: bool)
        ensures
            r,
    {
        true
    }

    /// Register the transmit client.
    pub fn set_transmit_client(&mut self)
        ensures
            *final(self) == (Radio { tx_client_set: true, ..*old(self) }),
    {
        self.tx_client_set = true;
    }

    /// Register the receive client and its buffer.
    pub fn set_receive_client(&mut self, rx_buf: Vec<u8>)
        ensures
            final(self).rx_client_set,
            final(self).rx_buf matches Some(b) && b@ == rx_buf@,
            *final(self) == (Radio {
                rx_client_set: true,
                rx_buf: final(self).rx_buf,
                ..*old(self)
            }),
    {
        self.rx_client_set = true;
        self.rx_buf = Some(rx_buf);
    }

    /// Register the configuration client.
    pub fn set_config_client(&mut self)
        ensures
            *final(self) == (Radio { cfg_client_set: true, ..*old(self) }),
    {
        self.cfg_client_set = true;
    }

    /// A command-boundary event from the core: apply a scheduled
    /// power-down. Reports whether the configuration client should be
    /// told the configuration took effect.
    pub fn command_done(&mut self) -> (r: bool)
        ensures
            !final(self).schedule_powerdown,
            old(self).schedule_powerdown ==> !final(self).rfc.enabled,
            r == old(self).cfg_client_set,
    {
        if self.schedule_powerdown {
            let _ = self.power_down();
            self.schedule_powerdown = false;
        }
        self.cfg_client_set
    }

    /// A transmission finished: apply a scheduled power-down and hand the
    /// buffer back for the transmit client, who gets it exactly when one
    /// was held.
    pub fn tx_done(&mut self) -> (r: Option<Vec<u8>>)
        ensures
            !final(self).schedule_powerdown,
            old(self).schedule_powerdown ==> !final(self).rfc.enabled,
            final(self).tx_buf is None,
            r is Some <==> old(self).tx_buf is Some,
            r matches Some(b) ==> b == old(self).tx_buf->Some_0,
    {
        if self.schedule_powerdown {
            let _ = self.power_down();
            self.schedule_powerdown = false;
        }
        let mut taken: Option<Vec<u8>> = None;
        core::mem::swap(&mut taken, &mut self.tx_buf);
        taken
    }

    /// A reception finished: hand the buffer and its length back for the
    /// receive client, who gets it exactly when one was held.
    pub fn rx_ok(&mut self) -> (r: Option<(Vec<u8>, usize)>)
        ensures
            final(self).rx_buf is None,
            r is Some <==> old(self).rx_buf is Some,
            r matches Some(b) ==> b.0 == old(self).rx_buf->Some_0 && b.1
                == old(self).rx_buf->Some_0@.len(),
    {
        let mut taken: Option<Vec<u8>> = None;
        core::mem::swap(&mut taken, &mut self.rx_buf);
        match taken {
            Some(buf) => {
                let frame_len = buf.len();
                Some((buf, frame_len))
            },
            None => None,
        }
    }
}

} // verus!
