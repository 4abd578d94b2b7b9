use lib::drivers::mailbox::bcm2835_mbox::{mbox_0_has_message, MailboxDevice, MailboxDriver};
use lib::drivers::mailbox::{
    check_ready, register_mailbox, take_mailbox, Mailbox, MailboxClient, MailboxError, MailboxResult,
};
use lib::drivers::interrupt_controller::RegisterWrite;
use lib::once_slot::OnceSlot;

struct Fake {
    enabled: bool,
    room: bool,
    sent: Vec<u32>,
    inbox: Vec<u32>,
}

impl Mailbox for Fake {
    fn enable(&mut self) {
        self.enabled = true;
    }
    fn disable(&mut self) {
        self.enabled = false;
    }
    fn ready(&self) -> bool {
        self.room
    }
    fn send(&mut self, data: u32) -> MailboxResult<()> {
        self.sent.push(data);
        Ok(())
    }
    fn receive(&mut self) -> Option<u32> {
        self.inbox.pop()
    }
}

fn fake(room: bool) -> Fake {
    Fake { enabled: false, room, sent: vec![], inbox: vec![0x1234] }
}

#[test]
fn ready_check() {
    assert_eq!(check_ready(true), Ok(()));
    assert_eq!(check_ready(false), Err(MailboxError::MailboxFull));
}

#[test]
fn client_send_and_receive() {
    let mut c = MailboxClient::new(fake(true));
    assert_eq!(c.send(8), Ok(()));
    assert_eq!(c.receive(), Some(0x1234));
    assert_eq!(c.receive(), None);
    let mut full = MailboxClient::new(fake(false));
    assert_eq!(full.send(8), Err(MailboxError::MailboxFull));
}

#[test]
fn take_mailbox_once() {
    let mut slot: OnceSlot<MailboxClient<Fake>> = OnceSlot::new();
    assert!(matches!(take_mailbox(&mut slot), Err(MailboxError::MailboxNotInitialized)));
    assert_eq!(register_mailbox(&mut slot, fake(true)), Ok(()));
    assert_eq!(register_mailbox(&mut slot, fake(true)), Err(MailboxError::MailboxAlreadyExists));
    assert!(take_mailbox(&mut slot).is_ok());
    assert!(matches!(take_mailbox(&mut slot), Err(MailboxError::MailboxBusy)));
}

#[test]
fn bcm2835_mailbox_device() {
    let mut dev = MailboxDevice::new("/soc/mailbox".to_string(), 0x3f00_b880);
    assert_eq!(dev.send(5), Err(MailboxError::MailboxDisabled));
    assert!(!dev.ready(0));
    assert_eq!(dev.enable(), RegisterWrite { offset: 0x1c, value: 1 });
    assert_eq!(dev.send(5), Ok(RegisterWrite { offset: 0x20, value: 5 }));
    assert!(dev.ready(0x4000_0000));
    assert!(!dev.ready(0x8000_0000));
    assert_eq!(dev.disable(), RegisterWrite { offset: 0x1c, value: 0 });
    assert!(!dev.ready(0));
    assert!(mbox_0_has_message(0));
    assert!(!mbox_0_has_message(0x4000_0000));
    assert_eq!(MailboxDriver::new().compatible(), "brcm,bcm2835-mbox");
    let _ = (MailboxError::MailboxEmpty,);
}

#[test]
fn a_successful_take_enables_the_mailbox_and_a_full_one_sends_nothing() {
    let mut slot: OnceSlot<MailboxClient<Fake>> = OnceSlot::new();
    assert_eq!(register_mailbox(&mut slot, fake(false)), Ok(()));
    assert!(!slot.get().unwrap().mailbox().enabled);
    let client = take_mailbox(&mut slot).ok().unwrap();
    assert!(client.mailbox().enabled);
    assert_eq!(client.send(7), Err(MailboxError::MailboxFull));
    assert!(client.mailbox().sent.is_empty());
}

#[test]
fn the_client_handed_out_is_the_registered_one() {
    let mut slot: OnceSlot<MailboxClient<Fake>> = OnceSlot::new();
    assert_eq!(register_mailbox(&mut slot, fake(true)), Ok(()));
    let client = take_mailbox(&mut slot).ok().unwrap();
    assert_eq!(client.send(0x88), Ok(()));
    assert_eq!(slot.get().unwrap().mailbox().sent, vec![0x88]);
}
