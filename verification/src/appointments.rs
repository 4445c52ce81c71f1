//! Appointments.

use crate::entity_store::EntityStore;
use crate::errors::ActionError;
use crate::identity::same_principal;
use crate::seq_lemmas::{lemma_filter_next, lemma_filter_none};
use crate::services::ServiceType;
use candid::Principal;
use vstd::prelude::*;

verus! {

/// Where an appointment stands. Any status may follow any other.
#[derive(Clone, Copy, Debug, PartialEq, Eq, Structural)]
pub enum AppointmentStatus {
    Scheduled,
    Confirmed,
    Completed,
    Cancelled,
}

/// What a caller hands in to schedule an appointment.
#[derive(Debug, PartialEq, Eq)]
pub struct ScheduleAppointmentInput {
    pub service_type: ServiceType,
    pub datetime: u64,
    pub notes: String,
    pub location: String,
}

/// A stored appointment.
#[derive(Debug, PartialEq, Eq)]
pub struct Appointment {
    pub id: u64,
    pub user: Principal,
    pub service_type: ServiceType,
    pub datetime: u64,
    pub location: String,
    pub status: AppointmentStatus,
    pub notes: String,
}

impl Clone for Appointment {
    fn clone(&self) -> (copy: Self)
        ensures
            copy == *self,
    {
        Appointment {
            id: self.id,
            user: self.user,
            service_type: self.service_type,
            datetime: self.datetime,
            location: self.location.clone(),
            status: self.status,
            notes: self.notes.clone(),
        }
    }
}

/// Every appointment carries the id it is stored under.
pub open spec fn appointments_carry_their_ids(appointments: Map<u64, Appointment>) -> bool {
    forall|id: u64| #[trigger] appointments.contains_key(id) ==> appointments[id].id == id
}

/// The appointment that `schedule_appointment` stores for `input`.
pub open spec fn new_appointment(id: u64, caller: Principal, input: ScheduleAppointmentInput)
    -> Appointment {
    Appointment {
        id,
        user: caller,
        service_type: input.service_type,
        datetime: input.datetime,
        location: input.location,
        status: AppointmentStatus::Scheduled,
        notes: input.notes,
    }
}

/// The predicate "this appointment belongs to `user`".
pub open spec fn booked_by(user: Principal) -> spec_fn(Appointment) -> bool {
    |appointment: Appointment| appointment.user == user
}

/// Stores a new scheduled appointment of `caller` under the next
/// appointment id and returns that id. Always succeeds.
pub fn schedule_appointment(
    appointments: &mut EntityStore<Appointment>,
    caller: Principal,
    input: ScheduleAppointmentInput,
) -> (result: Result<u64, ActionError>)
    ensures
        appointments_carry_their_ids(old(appointments)@) ==> appointments_carry_their_ids(
            final(appointments)@,
        ),
        result == Ok::<u64, ActionError>(old(appointments).next_id() as u64),
        final(appointments).next_id() == old(appointments).next_id() + 1,
        final(appointments)@ == old(appointments)@.insert(
            old(appointments).next_id() as u64,
            new_appointment(old(appointments).next_id() as u64, caller, input),
        ),
{
    let appointment_id = appointments.upcoming_id();
    let appointment = Appointment {
        id: appointment_id,
        user: caller,
        service_type: input.service_type,
        datetime: input.datetime,
        location: input.location,
        status: AppointmentStatus::Scheduled,
        notes: input.notes,
    };
    appointments.add(appointment);
    Ok(appointment_id)
}

/// The appointment stored under `id`, if there is one.
pub fn get_appointment(appointments: &EntityStore<Appointment>, id: u64) -> (found: Option<
    Appointment,
>)
    ensures
        found == if appointments@.contains_key(id) {
            Some(appointments@[id])
        } else {
            None
        },
{
    match appointments.get(id) {
        Some(appointment) => Some(appointment.clone()),
        None => None,
    }
}

/// The appointments of `user`, in the order of their ids.
pub fn get_user_appointments(appointments: &EntityStore<Appointment>, user: Principal) -> (found:
    Vec<Appointment>)
    ensures
        found@ == appointments.records().filter(booked_by(user)),
{
    let mut found: Vec<Appointment> = Vec::new();
    let count = appointments.upcoming_id();
    let mut id: u64 = 0;
    proof {
        assert(appointments.records().take(0) =~= Seq::<Appointment>::empty());
        lemma_filter_none(booked_by(user));
    }
    while id < count
        invariant
            count == appointments.next_id(),
            id <= count,
            found@ == appointments.records().take(id as int).filter(booked_by(user)),
        decreases count - id,
    {
        match appointments.get(id) {
            Some(appointment) => {
                proof {
                    lemma_filter_next(appointments.records(), id as int, booked_by(user));
                }
                if same_principal(&appointment.user, &user) {
                    found.push(appointment.clone());
                }
            },
            None => {},
        }
        id = id + 1;
    }
    assert(appointments.records().take(count as int) =~= appointments.records());
    found
}

/// Sets the status of the appointment stored under `id`, whatever its
/// status was. Returns whether there is such an appointment.
pub fn update_appointment_status(
    appointments: &mut EntityStore<Appointment>,
    id: u64,
    status: AppointmentStatus,
) -> (updated: bool)
    ensures
        appointments_carry_their_ids(old(appointments)@) ==> appointments_carry_their_ids(
            final(appointments)@,
        ),
        updated == old(appointments)@.contains_key(id),
        final(appointments).next_id() == old(appointments).next_id(),
        final(appointments)@ == if updated {
            old(appointments)@.insert(id, Appointment { status, ..old(appointments)@[id] })
        } else {
            old(appointments)@
        },
{
    let current = match appointments.get(id) {
        Some(appointment) => Some(appointment.clone()),
        None => None,
    };
    match current {
        Some(appointment) => {
            let mut appointment = appointment;
            appointment.status = status;
            appointments.replace(id, appointment)
        },
        None => false,
    }
}

} // verus!
