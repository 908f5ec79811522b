use swarm_sync::enums::image_format::ImageFormatEnum;
use swarm_sync::enums::job::JobStateEnum;
use swarm_sync::enums::output::OutputTypeEnum;
use swarm_sync::enums::schedule::ScheduleTypeEnum;
use swarm_sync::enums::system::{CoreEvent, Pulse, SystemModuleEnum};
use swarm_sync::enums::workers::{OSEnum, WorkerStatusEnum};

#[test]
fn labels_read_back() {
    for e in [ImageFormatEnum::Tarball, ImageFormatEnum::DockerRegistry] {
        assert_eq!(ImageFormatEnum::from_label(e.label()), Ok(e));
        assert_eq!(ImageFormatEnum::from_db_text(e.db_text()), Ok(e));
    }
    for e in [OutputTypeEnum::Stdout, OutputTypeEnum::Files] {
        assert_eq!(OutputTypeEnum::from_label(e.label()), Ok(e));
    }
    for e in [ScheduleTypeEnum::Once, ScheduleTypeEnum::Cron] {
        assert_eq!(ScheduleTypeEnum::from_db_text(e.db_text()), Ok(e));
    }
    for e in [CoreEvent::Startup, CoreEvent::Shutdown, CoreEvent::Restart] {
        assert_eq!(CoreEvent::from_label(e.label()), Ok(e));
    }
    for e in [Pulse::Slow, Pulse::Medium, Pulse::Fast] {
        assert_eq!(Pulse::from_label(e.label()), Ok(e));
    }
    for e in [
        WorkerStatusEnum::Idle,
        WorkerStatusEnum::Busy,
        WorkerStatusEnum::Offline,
        WorkerStatusEnum::Unreachable,
    ] {
        assert_eq!(WorkerStatusEnum::from_label(e.label()), Ok(e));
    }
    for e in [
        JobStateEnum::Submitted,
        JobStateEnum::Queued,
        JobStateEnum::Running,
        JobStateEnum::Completed,
        JobStateEnum::Failed,
    ] {
        assert_eq!(JobStateEnum::from_label(e.label()), Ok(e));
    }
}

#[test]
fn os_display_text_of_macos_does_not_read_back() {
    assert_eq!(OSEnum::MacOSEnum.label(), "MacOS");
    assert_eq!(OSEnum::from_label("MacOS"), Err(()));
    assert_eq!(OSEnum::MacOSEnum.db_text(), "MacOSEnum");
    assert_eq!(OSEnum::from_db_text("MacOSEnum"), Ok(OSEnum::MacOSEnum));
    assert_eq!(OSEnum::from_label("Linux"), Ok(OSEnum::Linux));
}

#[test]
fn unknown_texts_are_refused() {
    assert_eq!(ImageFormatEnum::from_label("tarball"), Err(()));
    assert_eq!(ImageFormatEnum::from_db_text("zip"), Err("Unexpected value for ImageFormat"));
    assert_eq!(OutputTypeEnum::from_db_text(""), Err("Unexpected value"));
    assert_eq!(ScheduleTypeEnum::from_db_text("Weekly"), Err("Unexpected value for ScheduleTypeEnum"));
    assert_eq!(WorkerStatusEnum::from_db_text("Sleeping"), Err("Unexpected value"));
    assert_eq!(SystemModuleEnum::from_db_text("Logger"), Err("Unexpected value"));
    assert_eq!("Cron".parse::<ScheduleTypeEnum>(), Ok(ScheduleTypeEnum::Cron));
    assert_eq!("Hourly".parse::<ScheduleTypeEnum>(), Err(()));
}

#[test]
fn module_variants_and_positions() {
    let names = SystemModuleEnum::variants();
    assert_eq!(
        names,
        &["Dispatcher", "Harvester", "Hibernator", "Receiver", "Scheduler", "TaskArchive"]
    );
    for (i, name) in names.iter().enumerate() {
        assert_eq!(SystemModuleEnum::from(i).label(), *name);
    }
    assert_eq!(SystemModuleEnum::from(6), SystemModuleEnum::Dispatcher);
    assert_eq!(SystemModuleEnum::from(usize::MAX), SystemModuleEnum::Dispatcher);
}

#[test]
fn from_str_reads_each_enum() {
    assert_eq!("Tarball".parse::<ImageFormatEnum>(), Ok(ImageFormatEnum::Tarball));
    assert_eq!("Busy".parse::<WorkerStatusEnum>(), Ok(WorkerStatusEnum::Busy));
    assert_eq!("busy".parse::<WorkerStatusEnum>(), Err(()));
    assert_eq!("Shutdown".parse::<CoreEvent>(), Ok(CoreEvent::Shutdown));
    assert_eq!("Slow".parse::<Pulse>(), Ok(Pulse::Slow));
    assert_eq!("Scheduler".parse::<SystemModuleEnum>(), Ok(SystemModuleEnum::Scheduler));
    assert_eq!("Running".parse::<JobStateEnum>(), Ok(JobStateEnum::Running));
}
