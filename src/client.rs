use vstd::prelude::*;
use crate::protos::{Action, Command, DisplayZone, InputId, Key, KeyAction, KeyConfig, TopLevel};
use crate::socket::commands::MessageError;

verus! {

/// Delivers one command message to the server.
pub trait CommandSender {
    /// Sending `command` from this sender can give `r`. A sender that says
    /// nothing more admits every outcome.
    open spec fn send_gives(&self, command: TopLevel, r: Result<(), MessageError>) -> bool {
        true
    }

    fn send_command(&mut self, command: TopLevel) -> (r: Result<(), MessageError>)
        ensures
            old(self).send_gives(command, r),
    ;
}

/// A client connection that speaks the command protocol.
pub struct ClientWrapper<C: CommandSender> {
    pub client: C,
}

impl<C: CommandSender> ClientWrapper<C> {
    pub fn new(client: C) -> (r: Self)
        ensures
            r.client == client,
    {
        Self { client }
    }
}

/// Every operation a client can ask of the server.
pub trait ClientCommands {
    /// Binds an input of the device to a sequence of actions.
    fn send_key_config(&mut self, input_id: InputId, actions: Vec<Action>) -> Result<(), MessageError>;

    /// Sets the image shown while the device starts; the path should be absolute.
    fn set_boot_logo(&mut self, image_path: String) -> Result<(), MessageError>;

    /// Sets the display brightness in percent, 0 to 100.
    fn set_brightness(&mut self, brightness_percentage: u8) -> Result<(), MessageError>;

    /// Sets the image of one display zone; the path should be absolute.
    fn set_display_zone_image(&mut self, display_zone: DisplayZone, image_path: String) -> Result<
        (),
        MessageError,
    >;

    /// Clears every display zone, leaving the stored images in place.
    fn clear_all_images(&mut self) -> Result<(), MessageError>;

    /// Clears one display zone.
    fn clear_display_zone_image(&mut self, display_zone: DisplayZone) -> Result<(), MessageError>;
}

/// The message that carries `command`.
pub fn create_command(command: Command) -> (r: TopLevel)
    ensures
        r.command == Some(command),
{
    TopLevel { command: Some(command) }
}

impl<C: CommandSender> ClientCommands for ClientWrapper<C> {
    fn send_key_config(&mut self, input_id: InputId, actions: Vec<Action>) -> (r: Result<(), MessageError>)
        ensures
            old(self).client.send_gives(TopLevel { command: Some(Command::KeyConfigCommand(KeyConfig { input_id, actions })) }, r),
    {
        self.client.send_command(create_command(Command::KeyConfigCommand(KeyConfig { input_id, actions })))
    }

    fn set_boot_logo(&mut self, image_path: String) -> (r: Result<(), MessageError>)
        ensures
            old(self).client.send_gives(TopLevel { command: Some(Command::SetBootLogoCommand(image_path)) }, r),
    {
        self.client.send_command(create_command(Command::SetBootLogoCommand(image_path)))
    }

    fn set_brightness(&mut self, brightness_percentage: u8) -> (r: Result<(), MessageError>)
        ensures
            old(self).client.send_gives(TopLevel { command: Some(Command::SetBrightnessCommand(brightness_percentage as u32)) }, r),
    {
        self.client.send_command(create_command(Command::SetBrightnessCommand(brightness_percentage as u32)))
    }

    fn set_display_zone_image(&mut self, display_zone: DisplayZone, image_path: String) -> (r: Result<
        (),
        MessageError,
    >)
        ensures
            old(self).client.send_gives(TopLevel { command: Some(Command::SetDisplayZoneImageCommand(display_zone, image_path)) }, r),
    {
        self.client.send_command(create_command(Command::SetDisplayZoneImageCommand(display_zone, image_path)))
    }

    fn clear_all_images(&mut self) -> (r: Result<(), MessageError>)
        ensures
            old(self).client.send_gives(TopLevel { command: Some(Command::ClearAllDisplayZoneImagesCommand(false)) }, r),
    {
        self.client.send_command(create_command(Command::ClearAllDisplayZoneImagesCommand(false)))
    }

    fn clear_display_zone_image(&mut self, display_zone: DisplayZone) -> (r: Result<(), MessageError>)
        ensures
            old(self).client.send_gives(TopLevel { command: Some(Command::ClearDisplayZoneImageCommand(display_zone)) }, r),
    {
        self.client.send_command(create_command(Command::ClearDisplayZoneImageCommand(display_zone)))
    }
}

/// Builds the action list of a key configuration.
pub struct KeyConfigActionBuilder {
    pub actions: Vec<Action>,
}

impl KeyConfigActionBuilder {
    /// A builder with no actions yet.
    pub fn new() -> (r: Self)
        ensures
            r.actions@.len() == 0,
    {
        Self { actions: Vec::new() }
    }

    /// Appends a click of `key`.
    pub fn add_key_action(self, key: Key) -> (r: Self)
        ensures
            r.actions@ == self.actions@.push(Action { key_action: Some(KeyAction { key, unicode: None, other_key_code: None }) }),
    {
        let mut actions = self.actions;
        actions.push(Action { key_action: Some(KeyAction::new(key)) });
        Self { actions }
    }

    /// The actions built so far.
    pub fn actions(&self) -> (r: &Vec<Action>)
        ensures
            r@ == self.actions@,
    {
        &self.actions
    }
}

} // verus!
