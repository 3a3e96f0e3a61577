pub mod accounts;
pub mod buttons;
pub mod child_bounties;
pub mod chips;
pub mod icons;
pub mod inputs;
pub mod items;
pub mod modals;
pub mod nav;
pub mod steps;
